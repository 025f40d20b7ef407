//! The query builder: search parameters, flags, and URL serialization.

use vstd::prelude::*;
use vstd::string::StringExecFns;
use vstd::utf8::{decode_utf8, encode_utf8, encode_utf8_decode_utf8};

use crate::percent::{
    lemma_component_char_no_separator, lemma_pct_encode_chars, lemma_pct_round_trip, pct_decode,
    pct_encode, percent_encode,
};

verus! {

/// A builder for one Instant Answers request: the search phrase, the name of
/// the calling application, and two flags that default to off and can only be
/// turned on.
#[derive(Clone, Debug)]
pub struct Query {
    /// The search phrase, arbitrary Unicode.
    pub query: String,
    /// The application identifier sent with the request.
    pub name: String,
    /// Ask the service to strip HTML markup from textual answer fields.
    pub no_html: bool,
    /// Ask the service to suppress disambiguation-type answers.
    pub skip_disambig: bool,
}

/// The errors the client reports, one flat kind per failing collaborator.
#[derive(Clone, Debug, PartialEq, Eq)]
pub enum Error {
    /// The HTTP collaborator failed; carries its message.
    Transport(String),
    /// URL assembly produced a syntactically invalid URL.
    UrlConstruction,
    /// The response body is not well-formed JSON.
    JsonSyntax,
    /// The JSON is well formed but violates the answer schema. `field` names
    /// the offending key; `index` gives the position in the array being
    /// decoded, where one applies.
    SchemaDecode {
        /// The JSON key whose value broke the schema.
        field: String,
        /// The position in the enclosing array, if the error arose inside one.
        index: Option<usize>,
    },
}

/// The mathematical value of an [`Error`], with text as character sequences.
pub enum ErrorModel {
    /// Value of [`Error::Transport`].
    Transport(Seq<char>),
    /// Value of [`Error::UrlConstruction`].
    UrlConstruction,
    /// Value of [`Error::JsonSyntax`].
    JsonSyntax,
    /// Value of [`Error::SchemaDecode`].
    SchemaDecode {
        /// The JSON key whose value broke the schema.
        field: Seq<char>,
        /// The position in the enclosing array, if any.
        index: Option<usize>,
    },
}

impl View for Error {
    type V = ErrorModel;

    open spec fn view(&self) -> ErrorModel {
        match self {
            Error::Transport(s) => ErrorModel::Transport(s@),
            Error::UrlConstruction => ErrorModel::UrlConstruction,
            Error::JsonSyntax => ErrorModel::JsonSyntax,
            Error::SchemaDecode { field, index } => ErrorModel::SchemaDecode {
                field: field@,
                index: *index,
            },
        }
    }
}

/// The request URL before the optional flags: the fixed prefix, the
/// percent-encoded query, the percent-encoded application name, and the fixed
/// format parameters, exactly once each.
pub open spec fn spec_url_base(q: Query) -> Seq<char> {
    "https://api.duckduckgo.com/?q="@ + pct_encode(encode_utf8(q.query@)) + "&t="@ + pct_encode(
        encode_utf8(q.name@),
    ) + "&format=json&no_redirect=1"@
}

/// The full request URL: the base, then `&no_html=1` if and only if that flag
/// is set, then `&skip_disambig=1` if and only if that flag is set.
pub open spec fn spec_url(q: Query) -> Seq<char> {
    spec_url_base(q) + (if q.no_html {
        "&no_html=1"@
    } else {
        Seq::<char>::empty()
    }) + (if q.skip_disambig {
        "&skip_disambig=1"@
    } else {
        Seq::<char>::empty()
    })
}

/// Whether a string parses as a syntactically valid URL. Named, not defined:
/// only the URL collaborator decides it.
pub uninterp spec fn url_parse_ok(s: Seq<char>) -> bool;

/// Relies on `url::Url::parse`: whether a string is a syntactically valid
/// absolute URL is a function of the string alone.
#[verifier::external_body]
fn url_syntax_ok(s: &str) -> (r: bool)
    ensures
        r == url_parse_ok(s@),
{
    url::Url::parse(s).is_ok()
}

impl Query {
    /// Constructs a new query from the search phrase and the name of the
    /// calling application. Both flags start off.
    pub fn new(query: &str, name: &str) -> (r: Self)
        ensures
            r.query@ == query@,
            r.name@ == name@,
            !r.no_html,
            !r.skip_disambig,
    {
        Query { query: query.to_owned(), name: name.to_owned(), no_html: false, skip_disambig: false }
    }

    /// Turns on the flag that asks the service to strip HTML markup from the
    /// text of the response. A set flag is never unset.
    pub fn no_html(self) -> (r: Self)
        ensures
            r == (Query { no_html: true, ..self }),
    {
        Query { no_html: true, ..self }
    }

    /// Turns on the flag that asks the service to skip disambiguation-type
    /// answers. A set flag is never unset.
    pub fn skip_disambig(self) -> (r: Self)
        ensures
            r == (Query { skip_disambig: true, ..self }),
    {
        Query { skip_disambig: true, ..self }
    }

    /// Serializes the parameters into the request URL, percent-encoding the
    /// query and the application name. Fails, with the distinct URL error,
    /// exactly when the result does not parse as a URL.
    pub fn to_url(&self) -> (r: Result<String, Error>)
        ensures
            r is Ok <==> url_parse_ok(spec_url(*self)),
            r is Ok ==> r->Ok_0@ == spec_url(*self),
            r is Err ==> r->Err_0 == Error::UrlConstruction,
    {
        let mut url = String::from_str("https://api.duckduckgo.com/?q=");
        let enc_query = percent_encode(self.query.as_str().as_bytes());
        url.append(enc_query.as_str());
        url.append("&t=");
        let enc_name = percent_encode(self.name.as_str().as_bytes());
        url.append(enc_name.as_str());
        url.append("&format=json&no_redirect=1");
        if self.no_html {
            url.append("&no_html=1");
        }
        if self.skip_disambig {
            url.append("&skip_disambig=1");
        }
        proof {
            assert(url@ =~= spec_url(*self));
        }
        if url_syntax_ok(url.as_str()) {
            Ok(url)
        } else {
            Err(Error::UrlConstruction)
        }
    }
}

/// Law: each flag appends exactly its own parameter, `no_html` first, and an
/// unset flag adds nothing — the URL of a query with both flags off is the
/// base alone.
pub proof fn lemma_url_flags(q: Query)
    ensures
        spec_url(q) == spec_url_base(q) + (if q.no_html {
            "&no_html=1"@
        } else {
            Seq::<char>::empty()
        }) + (if q.skip_disambig {
            "&skip_disambig=1"@
        } else {
            Seq::<char>::empty()
        }),
        spec_url_base(q) == spec_url(Query { no_html: false, skip_disambig: false, ..q }),
{
    let plain = Query { no_html: false, skip_disambig: false, ..q };
    assert(spec_url_base(plain) == spec_url_base(q));
    assert(spec_url(plain) =~= spec_url_base(q));
}

/// Whether `pat` stands in `s` at position `i`.
pub open spec fn occurs_at(s: Seq<char>, pat: Seq<char>, i: int) -> bool {
    0 <= i && i + pat.len() <= s.len() && s.subrange(i, i + pat.len() as int) == pat
}

/// The position of `format=json` in the URL of `q`; `no_redirect=1` follows
/// twelve characters later.
pub open spec fn format_pos(q: Query) -> int {
    34 + pct_encode(encode_utf8(q.query@)).len() as int + pct_encode(encode_utf8(q.name@)).len()
        as int
}

/// Law: the fixed parameters `format=json` and `no_redirect=1` each stand in
/// the URL exactly once, at their fixed place after the two encoded
/// components, whatever the flags and whatever the query text.
pub proof fn lemma_fixed_params_once(q: Query)
    ensures
        occurs_at(spec_url(q), "format=json"@, format_pos(q)),
        forall|j: int| occurs_at(spec_url(q), "format=json"@, j) ==> j == format_pos(q),
        occurs_at(spec_url(q), "no_redirect=1"@, format_pos(q) + 12),
        forall|j: int| occurs_at(spec_url(q), "no_redirect=1"@, j) ==> j == format_pos(q) + 12,
{
    reveal_strlit("https://api.duckduckgo.com/?q=");
    reveal_strlit("&t=");
    reveal_strlit("&format=json&no_redirect=1");
    reveal_strlit("&no_html=1");
    reveal_strlit("&skip_disambig=1");
    reveal_strlit("format=json");
    reveal_strlit("no_redirect=1");
    let c1 = pct_encode(encode_utf8(q.query@));
    let c2 = pct_encode(encode_utf8(q.name@));
    let a = c1.len() as int;
    let b = c2.len() as int;
    let p = "https://api.duckduckgo.com/?q="@;
    let t = "&t="@;
    let d = "&format=json&no_redirect=1"@;
    let e: Seq<char> = if q.no_html {
        "&no_html=1"@
    } else {
        Seq::<char>::empty()
    };
    let f: Seq<char> = if q.skip_disambig {
        "&skip_disambig=1"@
    } else {
        Seq::<char>::empty()
    };
    let d0 = 33 + a + b;
    let e0 = d0 + 26;
    let f0 = e0 + e.len() as int;
    let u = spec_url(q);
    let pat1 = "format=json"@;
    let pat2 = "no_redirect=1"@;
    assert(u =~= p + c1 + t + c2 + d + e + f);
    assert(u.len() == f0 + f.len());
    // No character of an encoded component is `=` or a letter of the fixed
    // parameters' frame: it is unreserved, `%`, or a hex digit.
    lemma_pct_encode_chars(encode_utf8(q.query@));
    lemma_pct_encode_chars(encode_utf8(q.name@));
    assert forall|k: int| 0 <= k < a implies c1[k] != '=' by {
        lemma_component_char_no_separator(c1[k]);
    }
    assert forall|k: int| 0 <= k < b implies c2[k] != '=' by {
        lemma_component_char_no_separator(c2[k]);
    }
    // Where each part of the concatenation stands.
    assert(forall|k: int| 0 <= k < 30 ==> u[k] == p[k]);
    assert(forall|k: int| 30 <= k < 30 + a ==> u[k] == c1[k - 30]);
    assert(forall|k: int| 30 + a <= k < 33 + a ==> u[k] == t[k - 30 - a]);
    assert(forall|k: int| 33 + a <= k < d0 ==> u[k] == c2[k - 33 - a]);
    assert(forall|k: int| d0 <= k < e0 ==> u[k] == d[k - d0]);
    assert(forall|k: int| e0 <= k < f0 ==> u[k] == e[k - e0]);
    assert(forall|k: int| f0 <= k < f0 + f.len() ==> u[k] == f[k - f0]);
    // Every `=` of the URL stands at one of six known places.
    assert forall|k: int| 0 <= k < u.len() && u[k] == '=' implies (k == 29 || k == 32 + a || k == d0
        + 7 || k == d0 + 24 || (q.no_html && k == e0 + 8) || (q.skip_disambig && k == f0
        + 14)) by {
        if 30 <= k < 30 + a {
            assert(c1[k - 30] != '=');
        } else if 33 + a <= k < d0 {
            assert(c2[k - 33 - a] != '=');
        }
    }
    // The one occurrence of each pattern.
    assert(occurs_at(u, pat1, d0 + 1)) by {
        assert(u.subrange(d0 + 1, d0 + 12) =~= pat1);
    }
    assert(occurs_at(u, pat2, d0 + 13)) by {
        assert(u.subrange(d0 + 13, d0 + 26) =~= pat2);
    }
    assert(format_pos(q) == d0 + 1);
    // No other occurrence: any occurrence puts the pattern's own `=` at one
    // of the six places, and all but the right one mismatch elsewhere.
    assert forall|j: int| occurs_at(u, pat1, j) implies j == d0 + 1 by {
        assert(forall|ti: int| 0 <= ti < 11 ==> u[j + ti] == pat1[ti]) by {
            assert(forall|ti: int|
                0 <= ti < 11 ==> u.subrange(j, j + 11)[ti] == u[j + ti] && u.subrange(
                    j,
                    j + 11,
                )[ti] == pat1[ti]);
        }
        assert(u[j + 6] == pat1[6]);
        assert(pat1[6] == '=');
        if j + 6 == 29 {
            assert(u[j] == pat1[0]);
            assert(u[j] == p[j]);
            assert(false);
        } else if j + 6 == 32 + a {
            assert(u[j + 4] == pat1[4]);
            assert(u[j + 4] == t[j + 4 - 30 - a]);
            assert(false);
        } else if j + 6 == d0 + 24 {
            assert(u[j] == pat1[0]);
            assert(u[j] == d[j - d0]);
            assert(false);
        } else if q.no_html && j + 6 == e0 + 8 {
            assert(u[j] == pat1[0]);
            assert(u[j] == e[j - e0]);
            assert(false);
        } else if q.skip_disambig && j + 6 == f0 + 14 {
            assert(u[j] == pat1[0]);
            assert(u[j] == f[j - f0]);
            assert(false);
        }
    }
    assert forall|j: int| occurs_at(u, pat2, j) implies j == d0 + 13 by {
        assert(forall|ti: int| 0 <= ti < 13 ==> u[j + ti] == pat2[ti]) by {
            assert(forall|ti: int|
                0 <= ti < 13 ==> u.subrange(j, j + 13)[ti] == u[j + ti] && u.subrange(
                    j,
                    j + 13,
                )[ti] == pat2[ti]);
        }
        assert(u[j + 11] == pat2[11]);
        assert(pat2[11] == '=');
        if j + 11 == 29 {
            assert(u[j] == pat2[0]);
            assert(u[j] == p[j]);
            assert(false);
        } else if j + 11 == 32 + a {
            assert(u[j + 9] == pat2[9]);
            assert(u[j + 9] == t[j + 9 - 30 - a]);
            assert(false);
        } else if j + 11 == d0 + 7 {
            assert(u[j + 4] == pat2[4]);
            assert(u[j + 4] == d[j + 4 - d0]);
            assert(false);
        } else if q.no_html && j + 11 == e0 + 8 {
            assert(u[j + 3] == pat2[3]);
            assert(u[j + 3] == e[j + 3 - e0]);
            assert(false);
        } else if q.skip_disambig && j + 11 == f0 + 14 {
            assert(u[j] == pat2[0]);
            assert(u[j] == f[j - f0]);
            assert(false);
        }
    }
}

/// Law: the query component survives the trip into the URL — decoding the
/// percent-encoded UTF-8 of any text yields that text's bytes back, and those
/// bytes spell the original text.
pub proof fn lemma_component_round_trip(s: Seq<char>)
    ensures
        pct_decode(pct_encode(encode_utf8(s))) == Some(encode_utf8(s)),
        decode_utf8(encode_utf8(s)) == s,
{
    lemma_pct_round_trip(encode_utf8(s));
    encode_utf8_decode_utf8(s);
}

} // verus!
