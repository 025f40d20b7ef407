//! The typed answer model and the decoder that builds it from a generic JSON
//! value, handling every irregularity of the service's schema.

use vstd::prelude::*;

use crate::json::{get_field, json_doc_of, json_well_formed, lookup, parse_json, str_eq, JsonValue};
use crate::query::{Error, ErrorModel};

verus! {

/// An illustration attached to an answer or a link. A dimension that the
/// service reports as an empty string means "unknown" and decodes to zero.
#[derive(Clone, Debug, PartialEq, Eq)]
pub struct Icon {
    /// Where the image lives.
    pub url: String,
    /// Height in pixels; zero when unknown.
    pub height: u64,
    /// Width in pixels; zero when unknown.
    pub width: u64,
}

/// A single related link: its text, its address, and an optional icon.
#[derive(Clone, Debug, PartialEq, Eq)]
pub struct TopicResult {
    /// The link's display text.
    pub text: String,
    /// The link's address.
    pub first_url: String,
    /// An optional illustration.
    pub icon: Option<Icon>,
}

/// A named cluster of related links.
#[derive(Clone, Debug, PartialEq, Eq)]
pub struct TopicGroup {
    /// The cluster's name.
    pub name: String,
    /// The links in the cluster, in service order.
    pub topics: Vec<TopicResult>,
}

/// One entry of the related-topics sequence: either a single link or a named
/// cluster of links, told apart by which keys its JSON object carries.
#[derive(Clone, Debug, PartialEq, Eq)]
pub enum RelatedTopic {
    /// A single related link: the object carried `Text` and `FirstURL`.
    Topic(TopicResult),
    /// A named cluster: the object carried `Name` and `Topics`.
    Group(TopicGroup),
}

/// A ranked external link, reported under its own top-level key. Shaped like
/// a single related link but kept as its own type, to keep the two
/// vocabularies distinct.
#[derive(Clone, Debug, PartialEq, Eq)]
pub struct ExternalResult {
    /// The link's display text.
    pub text: String,
    /// The link's address.
    pub first_url: String,
    /// An optional illustration.
    pub icon: Option<Icon>,
}

/// The service's one-letter answer-type code, decoded to a named category.
/// An empty, absent or unrecognized code is `Unspecified`.
#[derive(Clone, Copy, Debug, PartialEq, Eq, Structural)]
pub enum Type {
    /// Code `A`: an article-style summary.
    Article,
    /// Code `D`: a disambiguation among several subjects.
    Disambiguation,
    /// Code `C`: a category.
    Category,
    /// Code `N`: a name.
    Name,
    /// Code `E`: an exclusive answer.
    Exclusive,
    /// An empty, absent or unrecognized code.
    Unspecified,
}

/// The decoded answer: every field of the service's JSON answer document,
/// safely typed. Absent and `null` text fields are `None`; sequences keep the
/// service's order.
#[derive(Clone, Debug, PartialEq, Eq)]
pub struct Response {
    /// Summary text, if any.
    pub abstract_text: Option<String>,
    /// Attribution for the summary, if any.
    pub abstract_source: Option<String>,
    /// Link for the summary, if any.
    pub abstract_url: Option<String>,
    /// Summary illustration, if any.
    pub image: Option<Icon>,
    /// The answer heading; empty when no answer matched.
    pub heading: String,
    /// A direct computed answer, if any.
    pub answer_text: Option<String>,
    /// The category of the direct answer, if any.
    pub answer_type: Option<String>,
    /// Dictionary-style definition, if any.
    pub definition_text: Option<String>,
    /// Attribution for the definition, if any.
    pub definition_source: Option<String>,
    /// Link for the definition, if any.
    pub definition_url: Option<String>,
    /// Related links and clusters, in service order.
    pub related_topics: Vec<RelatedTopic>,
    /// Ranked external links, in service order.
    pub results: Vec<ExternalResult>,
    /// The decoded answer-type code.
    pub answer_category: Type,
}

// ---------------------------------------------------------------------------
// The mathematical models of the decoded types, with text as character
// sequences, so that contracts speak of values rather than allocations.
// ---------------------------------------------------------------------------

/// The mathematical value of an [`Icon`].
pub struct IconModel {
    /// Value of [`Icon::url`].
    pub url: Seq<char>,
    /// Value of [`Icon::height`].
    pub height: u64,
    /// Value of [`Icon::width`].
    pub width: u64,
}

/// The mathematical value of a [`TopicResult`] or an [`ExternalResult`].
pub struct LinkModel {
    /// The link's display text.
    pub text: Seq<char>,
    /// The link's address.
    pub first_url: Seq<char>,
    /// An optional illustration.
    pub icon: Option<IconModel>,
}

/// The mathematical value of a [`RelatedTopic`].
pub enum RelatedTopicModel {
    /// Value of [`RelatedTopic::Topic`].
    Topic(LinkModel),
    /// Value of [`RelatedTopic::Group`].
    Group {
        /// The cluster's name.
        name: Seq<char>,
        /// The links in the cluster.
        topics: Seq<LinkModel>,
    },
}

/// The mathematical value of a [`Response`].
pub struct ResponseModel {
    /// Value of [`Response::abstract_text`].
    pub abstract_text: Option<Seq<char>>,
    /// Value of [`Response::abstract_source`].
    pub abstract_source: Option<Seq<char>>,
    /// Value of [`Response::abstract_url`].
    pub abstract_url: Option<Seq<char>>,
    /// Value of [`Response::image`].
    pub image: Option<IconModel>,
    /// Value of [`Response::heading`].
    pub heading: Seq<char>,
    /// Value of [`Response::answer_text`].
    pub answer_text: Option<Seq<char>>,
    /// Value of [`Response::answer_type`].
    pub answer_type: Option<Seq<char>>,
    /// Value of [`Response::definition_text`].
    pub definition_text: Option<Seq<char>>,
    /// Value of [`Response::definition_source`].
    pub definition_source: Option<Seq<char>>,
    /// Value of [`Response::definition_url`].
    pub definition_url: Option<Seq<char>>,
    /// Value of [`Response::related_topics`].
    pub related_topics: Seq<RelatedTopicModel>,
    /// Value of [`Response::results`].
    pub results: Seq<LinkModel>,
    /// Value of [`Response::answer_category`].
    pub answer_category: Type,
}

impl View for Icon {
    type V = IconModel;

    open spec fn view(&self) -> IconModel {
        IconModel { url: self.url@, height: self.height, width: self.width }
    }
}

/// The model of an optional string.
pub open spec fn opt_text_view(o: Option<String>) -> Option<Seq<char>> {
    match o {
        Some(s) => Some(s@),
        None => None,
    }
}

/// The model of an optional icon.
pub open spec fn opt_icon_view(o: Option<Icon>) -> Option<IconModel> {
    match o {
        Some(i) => Some(i@),
        None => None,
    }
}

impl View for TopicResult {
    type V = LinkModel;

    open spec fn view(&self) -> LinkModel {
        LinkModel { text: self.text@, first_url: self.first_url@, icon: opt_icon_view(self.icon) }
    }
}

impl View for ExternalResult {
    type V = LinkModel;

    open spec fn view(&self) -> LinkModel {
        LinkModel { text: self.text@, first_url: self.first_url@, icon: opt_icon_view(self.icon) }
    }
}

impl View for RelatedTopic {
    type V = RelatedTopicModel;

    open spec fn view(&self) -> RelatedTopicModel {
        match self {
            RelatedTopic::Topic(t) => RelatedTopicModel::Topic(t@),
            RelatedTopic::Group(g) => RelatedTopicModel::Group {
                name: g.name@,
                topics: g.topics@.map_values(|t: TopicResult| t@),
            },
        }
    }
}

impl View for Response {
    type V = ResponseModel;

    open spec fn view(&self) -> ResponseModel {
        ResponseModel {
            abstract_text: opt_text_view(self.abstract_text),
            abstract_source: opt_text_view(self.abstract_source),
            abstract_url: opt_text_view(self.abstract_url),
            image: opt_icon_view(self.image),
            heading: self.heading@,
            answer_text: opt_text_view(self.answer_text),
            answer_type: opt_text_view(self.answer_type),
            definition_text: opt_text_view(self.definition_text),
            definition_source: opt_text_view(self.definition_source),
            definition_url: opt_text_view(self.definition_url),
            related_topics: self.related_topics@.map_values(|t: RelatedTopic| t@),
            results: self.results@.map_values(|r: ExternalResult| r@),
            answer_category: self.answer_category,
        }
    }
}

// ---------------------------------------------------------------------------
// The decoding rules, as total functions from JSON values to models.
// ---------------------------------------------------------------------------

/// The schema error blamed on one key, before any array index is known.
pub open spec fn schema_err(key: Seq<char>) -> ErrorModel {
    ErrorModel::SchemaDecode { field: key, index: None }
}

/// Stamps an array position onto a schema error.
pub open spec fn with_index(e: ErrorModel, i: usize) -> ErrorModel {
    match e {
        ErrorModel::SchemaDecode { field, index } => ErrorModel::SchemaDecode {
            field,
            index: Some(i),
        },
        _ => e,
    }
}

/// Rule for an optional text field: absent and `null` both mean "no value";
/// a string is taken verbatim; anything else breaks the schema.
pub open spec fn spec_opt_text(key: Seq<char>, f: Option<JsonValue>) -> Result<
    Option<Seq<char>>,
    ErrorModel,
> {
    match f {
        None => Ok(None),
        Some(JsonValue::Null) => Ok(None),
        Some(JsonValue::Str(s)) => Ok(Some(s@)),
        Some(_) => Err(schema_err(key)),
    }
}

/// Rule for a required text field that may be empty: absent and `null` decode
/// to the empty text; a string is taken verbatim; anything else breaks the
/// schema.
pub open spec fn spec_text_or_empty(key: Seq<char>, f: Option<JsonValue>) -> Result<
    Seq<char>,
    ErrorModel,
> {
    match f {
        None => Ok(Seq::empty()),
        Some(JsonValue::Null) => Ok(Seq::empty()),
        Some(JsonValue::Str(s)) => Ok(s@),
        Some(_) => Err(schema_err(key)),
    }
}

/// Rule for a dimension that arrives as a number or as an empty string: a
/// number is taken as is, the empty string means zero, an absent key means
/// zero, and anything else — `null` included — breaks the schema.
pub open spec fn spec_dim(key: Seq<char>, f: Option<JsonValue>) -> Result<u64, ErrorModel> {
    match f {
        None => Ok(0),
        Some(JsonValue::UInt(n)) => Ok(n),
        Some(JsonValue::Str(s)) => if s@ == Seq::<char>::empty() {
            Ok(0)
        } else {
            Err(schema_err(key))
        },
        Some(_) => Err(schema_err(key)),
    }
}

/// The exhaustive reading of the one-letter answer-type code: a known letter
/// maps to its category, anything else to `Unspecified`.
pub open spec fn code_of(s: Seq<char>) -> Type {
    if s == "A"@ {
        Type::Article
    } else if s == "D"@ {
        Type::Disambiguation
    } else if s == "C"@ {
        Type::Category
    } else if s == "N"@ {
        Type::Name
    } else if s == "E"@ {
        Type::Exclusive
    } else {
        Type::Unspecified
    }
}

/// Rule for the answer-type code field: absent, `null` and any string decode
/// to a category (unknown strings to `Unspecified`); any other value breaks
/// the schema.
pub open spec fn spec_type_code(f: Option<JsonValue>) -> Result<Type, ErrorModel> {
    match f {
        None => Ok(Type::Unspecified),
        Some(JsonValue::Null) => Ok(Type::Unspecified),
        Some(JsonValue::Str(s)) => Ok(code_of(s@)),
        Some(_) => Err(schema_err("Type"@)),
    }
}

/// Rule for an icon object: it must be an object whose `URL` is a string;
/// its dimensions follow the number-or-empty-string rule, absent meaning
/// zero.
pub open spec fn spec_decode_icon(v: JsonValue) -> Result<IconModel, ErrorModel> {
    match v {
        JsonValue::Object(fields) => match lookup(fields@, "URL"@) {
            Some(JsonValue::Str(u)) => match spec_dim("Height"@, lookup(fields@, "Height"@)) {
                Ok(h) => match spec_dim("Width"@, lookup(fields@, "Width"@)) {
                    Ok(w) => Ok(IconModel { url: u@, height: h, width: w }),
                    Err(e) => Err(e),
                },
                Err(e) => Err(e),
            },
            _ => Err(schema_err("URL"@)),
        },
        _ => Err(schema_err("Icon"@)),
    }
}

/// Rule for an optional icon field: absent and `null` mean no icon; anything
/// else must decode as an icon object.
pub open spec fn spec_opt_icon(f: Option<JsonValue>) -> Result<Option<IconModel>, ErrorModel> {
    match f {
        None => Ok(None),
        Some(JsonValue::Null) => Ok(None),
        Some(v) => match spec_decode_icon(v) {
            Ok(i) => Ok(Some(i)),
            Err(e) => Err(e),
        },
    }
}

/// Rule for a single link object: `Text` and `FirstURL` must be strings, the
/// icon is optional.
pub open spec fn spec_decode_link(v: JsonValue) -> Result<LinkModel, ErrorModel> {
    match v {
        JsonValue::Object(fields) => match lookup(fields@, "Text"@) {
            Some(JsonValue::Str(t)) => match lookup(fields@, "FirstURL"@) {
                Some(JsonValue::Str(u)) => match spec_opt_icon(lookup(fields@, "Icon"@)) {
                    Ok(ic) => Ok(LinkModel { text: t@, first_url: u@, icon: ic }),
                    Err(e) => Err(e),
                },
                _ => Err(schema_err("FirstURL"@)),
            },
            _ => Err(schema_err("Text"@)),
        },
        _ => Err(schema_err("Text"@)),
    }
}

/// Rule for the links of a cluster, in order, stopping at the first failure.
pub open spec fn spec_decode_links(elems: Seq<JsonValue>) -> Result<Seq<LinkModel>, ErrorModel>
    decreases elems.len(),
{
    if elems.len() == 0 {
        Ok(Seq::empty())
    } else {
        match spec_decode_link(elems[0]) {
            Ok(t) => match spec_decode_links(elems.drop_first()) {
                Ok(rest) => Ok(seq![t] + rest),
                Err(e) => Err(e),
            },
            Err(e) => Err(e),
        }
    }
}

/// Rule for one entry of the related-topics sequence: the keys present pick
/// the variant — `Name` with `Topics` makes a cluster, `Text` with `FirstURL`
/// makes a single link, anything else breaks the schema.
pub open spec fn spec_decode_related_topic(v: JsonValue) -> Result<RelatedTopicModel, ErrorModel> {
    match v {
        JsonValue::Object(fields) => if lookup(fields@, "Name"@) is Some && lookup(
            fields@,
            "Topics"@,
        ) is Some {
            match lookup(fields@, "Name"@) {
                Some(JsonValue::Str(n)) => match lookup(fields@, "Topics"@) {
                    Some(JsonValue::Array(elems)) => match spec_decode_links(elems@) {
                        Ok(ts) => Ok(RelatedTopicModel::Group { name: n@, topics: ts }),
                        Err(e) => Err(e),
                    },
                    _ => Err(schema_err("Topics"@)),
                },
                _ => Err(schema_err("Name"@)),
            }
        } else if lookup(fields@, "Text"@) is Some && lookup(fields@, "FirstURL"@) is Some {
            match spec_decode_link(v) {
                Ok(t) => Ok(RelatedTopicModel::Topic(t)),
                Err(e) => Err(e),
            }
        } else {
            Err(schema_err("RelatedTopics"@))
        },
        _ => Err(schema_err("RelatedTopics"@)),
    }
}

/// Rule for the related-topics sequence, from position `at` on: entries in
/// order, the first failure reported with its position.
pub open spec fn spec_decode_topics(elems: Seq<JsonValue>, at: usize) -> Result<
    Seq<RelatedTopicModel>,
    ErrorModel,
>
    decreases elems.len(),
{
    if elems.len() == 0 {
        Ok(Seq::empty())
    } else {
        match spec_decode_related_topic(elems[0]) {
            Ok(t) => match spec_decode_topics(elems.drop_first(), (at + 1) as usize) {
                Ok(rest) => Ok(seq![t] + rest),
                Err(e) => Err(e),
            },
            Err(e) => Err(with_index(e, at)),
        }
    }
}

/// Rule for the external-results sequence, from position `at` on: every entry
/// must be a single link; the first failure is reported with its position.
pub open spec fn spec_decode_results(elems: Seq<JsonValue>, at: usize) -> Result<
    Seq<LinkModel>,
    ErrorModel,
>
    decreases elems.len(),
{
    if elems.len() == 0 {
        Ok(Seq::empty())
    } else {
        match spec_decode_link(elems[0]) {
            Ok(t) => match spec_decode_results(elems.drop_first(), (at + 1) as usize) {
                Ok(rest) => Ok(seq![t] + rest),
                Err(e) => Err(e),
            },
            Err(e) => Err(with_index(e, at)),
        }
    }
}

/// Rule for a sequence-valued top-level field: absent and `null` mean the
/// empty sequence; anything but an array breaks the schema.
pub open spec fn spec_array_field(key: Seq<char>, f: Option<JsonValue>) -> Result<
    Seq<JsonValue>,
    ErrorModel,
> {
    match f {
        None => Ok(Seq::empty()),
        Some(JsonValue::Null) => Ok(Seq::empty()),
        Some(JsonValue::Array(elems)) => Ok(elems@),
        Some(_) => Err(schema_err(key)),
    }
}

/// The whole decoding rule: the root must be an object; each field follows
/// its rule above; the first failure, in the written order of the fields,
/// fails the whole decode.
pub open spec fn spec_decode_response(v: JsonValue) -> Result<ResponseModel, ErrorModel> {
    match v {
        JsonValue::Object(fields) => {
            let fs = fields@;
            let r_abstract_text = spec_opt_text("AbstractText"@, lookup(fs, "AbstractText"@));
            let r_abstract_source = spec_opt_text("AbstractSource"@, lookup(fs, "AbstractSource"@));
            let r_abstract_url = spec_opt_text("AbstractURL"@, lookup(fs, "AbstractURL"@));
            let r_image = spec_opt_icon(lookup(fs, "Image"@));
            let r_heading = spec_text_or_empty("Heading"@, lookup(fs, "Heading"@));
            let r_answer = spec_opt_text("Answer"@, lookup(fs, "Answer"@));
            let r_answer_type = spec_opt_text("AnswerType"@, lookup(fs, "AnswerType"@));
            let r_definition = spec_opt_text("Definition"@, lookup(fs, "Definition"@));
            let r_definition_source = spec_opt_text(
                "DefinitionSource"@,
                lookup(fs, "DefinitionSource"@),
            );
            let r_definition_url = spec_opt_text("DefinitionURL"@, lookup(fs, "DefinitionURL"@));
            let r_type = spec_type_code(lookup(fs, "Type"@));
            let r_topics_arr = spec_array_field("RelatedTopics"@, lookup(fs, "RelatedTopics"@));
            let r_results_arr = spec_array_field("Results"@, lookup(fs, "Results"@));
            if r_abstract_text is Err {
                Err(r_abstract_text->Err_0)
            } else if r_abstract_source is Err {
                Err(r_abstract_source->Err_0)
            } else if r_abstract_url is Err {
                Err(r_abstract_url->Err_0)
            } else if r_image is Err {
                Err(r_image->Err_0)
            } else if r_heading is Err {
                Err(r_heading->Err_0)
            } else if r_answer is Err {
                Err(r_answer->Err_0)
            } else if r_answer_type is Err {
                Err(r_answer_type->Err_0)
            } else if r_definition is Err {
                Err(r_definition->Err_0)
            } else if r_definition_source is Err {
                Err(r_definition_source->Err_0)
            } else if r_definition_url is Err {
                Err(r_definition_url->Err_0)
            } else if r_type is Err {
                Err(r_type->Err_0)
            } else if r_topics_arr is Err {
                Err(r_topics_arr->Err_0)
            } else if spec_decode_topics(r_topics_arr->Ok_0, 0) is Err {
                Err(spec_decode_topics(r_topics_arr->Ok_0, 0)->Err_0)
            } else if r_results_arr is Err {
                Err(r_results_arr->Err_0)
            } else if spec_decode_results(r_results_arr->Ok_0, 0) is Err {
                Err(spec_decode_results(r_results_arr->Ok_0, 0)->Err_0)
            } else {
                Ok(
                    ResponseModel {
                        abstract_text: r_abstract_text->Ok_0,
                        abstract_source: r_abstract_source->Ok_0,
                        abstract_url: r_abstract_url->Ok_0,
                        image: r_image->Ok_0,
                        heading: r_heading->Ok_0,
                        answer_text: r_answer->Ok_0,
                        answer_type: r_answer_type->Ok_0,
                        definition_text: r_definition->Ok_0,
                        definition_source: r_definition_source->Ok_0,
                        definition_url: r_definition_url->Ok_0,
                        related_topics: spec_decode_topics(r_topics_arr->Ok_0, 0)->Ok_0,
                        results: spec_decode_results(r_results_arr->Ok_0, 0)->Ok_0,
                        answer_category: r_type->Ok_0,
                    },
                )
            }
        },
        _ => Err(schema_err("root"@)),
    }
}

// ---------------------------------------------------------------------------
// The executable decoder, each function proved against its rule above.
// ---------------------------------------------------------------------------

/// The model of a decode result: the value's model on success, the error's
/// model on failure.
pub open spec fn view_res<T: View>(r: Result<T, Error>) -> Result<T::V, ErrorModel> {
    match r {
        Ok(x) => Ok(x@),
        Err(e) => Err(e@),
    }
}

/// The model of an optional field as handed over by [`get_field`].
pub open spec fn deref_opt(f: Option<&JsonValue>) -> Option<JsonValue> {
    match f {
        Some(v) => Some(*v),
        None => None,
    }
}

/// Builds the schema error blamed on one key.
fn schema_error(field: &str) -> (r: Error)
    ensures
        r@ == schema_err(field@),
        r is SchemaDecode,
{
    Error::SchemaDecode { field: field.to_owned(), index: None }
}

/// Stamps an array position onto a schema error.
fn stamp_index(e: Error, i: usize) -> (r: Error)
    ensures
        r@ == with_index(e@, i),
        e is SchemaDecode ==> r is SchemaDecode,
{
    match e {
        Error::SchemaDecode { field, index: _ } => Error::SchemaDecode { field, index: Some(i) },
        other => other,
    }
}

/// The dedicated decode step for a field that is a number or the empty
/// string: a number decodes as is, the empty string as zero, and anything
/// else — `null` included — is a schema error blamed on `field`.
pub fn decode_u64_or_empty_string(field: &str, v: &JsonValue) -> (r: Result<u64, Error>)
    ensures
        (r is Ok) == (spec_dim(field@, Some(*v)) is Ok),
        r is Ok ==> r->Ok_0 == spec_dim(field@, Some(*v))->Ok_0,
        r is Err ==> r->Err_0@ == spec_dim(field@, Some(*v))->Err_0,
        r is Err ==> r->Err_0 is SchemaDecode,
{
    match v {
        JsonValue::UInt(n) => Ok(*n),
        JsonValue::Str(s) => if s.as_str().is_empty() {
            proof {
                assert(s@ =~= Seq::<char>::empty());
            }
            Ok(0)
        } else {
            proof {
                assert(s@ != Seq::<char>::empty());
            }
            Err(schema_error(field))
        },
        _ => Err(schema_error(field)),
    }
}

/// Decodes a dimension field of an icon: an absent key means zero, a present
/// value follows the number-or-empty-string rule.
fn decode_dim(field: &str, f: Option<&JsonValue>) -> (r: Result<u64, Error>)
    ensures
        (r is Ok) == (spec_dim(field@, deref_opt(f)) is Ok),
        r is Ok ==> r->Ok_0 == spec_dim(field@, deref_opt(f))->Ok_0,
        r is Err ==> r->Err_0@ == spec_dim(field@, deref_opt(f))->Err_0,
        r is Err ==> r->Err_0 is SchemaDecode,
{
    match f {
        None => Ok(0),
        Some(v) => decode_u64_or_empty_string(field, v),
    }
}

/// Decodes an optional text field: absent and `null` mean no value, a string
/// is taken verbatim, anything else is a schema error blamed on `field`.
fn decode_opt_text(field: &str, f: Option<&JsonValue>) -> (r: Result<Option<String>, Error>)
    ensures
        (r is Ok) == (spec_opt_text(field@, deref_opt(f)) is Ok),
        r is Ok ==> opt_text_view(r->Ok_0) == spec_opt_text(field@, deref_opt(f))->Ok_0,
        r is Err ==> r->Err_0@ == spec_opt_text(field@, deref_opt(f))->Err_0,
        r is Err ==> r->Err_0 is SchemaDecode,
{
    match f {
        None => Ok(None),
        Some(JsonValue::Null) => Ok(None),
        Some(JsonValue::Str(s)) => Ok(Some(s.clone())),
        Some(_) => Err(schema_error(field)),
    }
}

/// Decodes a required text field that may be empty: absent and `null` decode
/// to the empty string.
fn decode_text_or_empty(field: &str, f: Option<&JsonValue>) -> (r: Result<String, Error>)
    ensures
        (r is Ok) == (spec_text_or_empty(field@, deref_opt(f)) is Ok),
        r is Ok ==> r->Ok_0@ == spec_text_or_empty(field@, deref_opt(f))->Ok_0,
        r is Err ==> r->Err_0@ == spec_text_or_empty(field@, deref_opt(f))->Err_0,
        r is Err ==> r->Err_0 is SchemaDecode,
{
    match f {
        None => Ok(String::new()),
        Some(JsonValue::Null) => Ok(String::new()),
        Some(JsonValue::Str(s)) => Ok(s.clone()),
        Some(_) => Err(schema_error(field)),
    }
}

/// Decodes the one-letter answer-type code to its category; an unknown code
/// is `Unspecified`, never an error.
pub fn type_from_code(s: &str) -> (r: Type)
    ensures
        r == code_of(s@),
{
    if str_eq(s, "A") {
        Type::Article
    } else if str_eq(s, "D") {
        Type::Disambiguation
    } else if str_eq(s, "C") {
        Type::Category
    } else if str_eq(s, "N") {
        Type::Name
    } else if str_eq(s, "E") {
        Type::Exclusive
    } else {
        Type::Unspecified
    }
}

/// Decodes the answer-type field: absent, `null` and any string yield a
/// category; any other value is a schema error.
fn decode_type_field(f: Option<&JsonValue>) -> (r: Result<Type, Error>)
    ensures
        (r is Ok) == (spec_type_code(deref_opt(f)) is Ok),
        r is Ok ==> r->Ok_0 == spec_type_code(deref_opt(f))->Ok_0,
        r is Err ==> r->Err_0@ == spec_type_code(deref_opt(f))->Err_0,
        r is Err ==> r->Err_0 is SchemaDecode,
{
    match f {
        None => Ok(Type::Unspecified),
        Some(JsonValue::Null) => Ok(Type::Unspecified),
        Some(JsonValue::Str(s)) => Ok(type_from_code(s.as_str())),
        Some(_) => Err(schema_error("Type")),
    }
}

/// Decodes an icon object.
pub fn decode_icon(v: &JsonValue) -> (r: Result<Icon, Error>)
    ensures
        view_res(r) == spec_decode_icon(*v),
        r is Err ==> r->Err_0 is SchemaDecode,
{
    match v {
        JsonValue::Object(fields) => match get_field(fields, "URL") {
            Some(JsonValue::Str(u)) => {
                let height = match decode_dim("Height", get_field(fields, "Height")) {
                    Ok(h) => h,
                    Err(e) => {
                        return Err(e);
                    },
                };
                let width = match decode_dim("Width", get_field(fields, "Width")) {
                    Ok(w) => w,
                    Err(e) => {
                        return Err(e);
                    },
                };
                Ok(Icon { url: u.clone(), height, width })
            },
            _ => Err(schema_error("URL")),
        },
        _ => Err(schema_error("Icon")),
    }
}

/// Decodes an optional icon field.
fn decode_opt_icon(f: Option<&JsonValue>) -> (r: Result<Option<Icon>, Error>)
    ensures
        (r is Ok) == (spec_opt_icon(deref_opt(f)) is Ok),
        r is Ok ==> opt_icon_view(r->Ok_0) == spec_opt_icon(deref_opt(f))->Ok_0,
        r is Err ==> r->Err_0@ == spec_opt_icon(deref_opt(f))->Err_0,
        r is Err ==> r->Err_0 is SchemaDecode,
{
    match f {
        None => Ok(None),
        Some(JsonValue::Null) => Ok(None),
        Some(v) => match decode_icon(v) {
            Ok(i) => Ok(Some(i)),
            Err(e) => Err(e),
        },
    }
}

/// Decodes the parts of a single link object: its text, its address, and its
/// optional icon.
fn decode_link_parts(v: &JsonValue) -> (r: Result<(String, String, Option<Icon>), Error>)
    ensures
        (r is Ok) == (spec_decode_link(*v) is Ok),
        r is Ok ==> spec_decode_link(*v)->Ok_0 == (LinkModel {
            text: r->Ok_0.0@,
            first_url: r->Ok_0.1@,
            icon: opt_icon_view(r->Ok_0.2),
        }),
        r is Err ==> r->Err_0@ == spec_decode_link(*v)->Err_0,
        r is Err ==> r->Err_0 is SchemaDecode,
{
    match v {
        JsonValue::Object(fields) => match get_field(fields, "Text") {
            Some(JsonValue::Str(t)) => match get_field(fields, "FirstURL") {
                Some(JsonValue::Str(u)) => match decode_opt_icon(get_field(fields, "Icon")) {
                    Ok(ic) => Ok((t.clone(), u.clone(), ic)),
                    Err(e) => Err(e),
                },
                _ => Err(schema_error("FirstURL")),
            },
            _ => Err(schema_error("Text")),
        },
        _ => Err(schema_error("Text")),
    }
}

/// Decodes a single related link.
pub fn decode_topic_result(v: &JsonValue) -> (r: Result<TopicResult, Error>)
    ensures
        view_res(r) == spec_decode_link(*v),
        r is Err ==> r->Err_0 is SchemaDecode,
{
    match decode_link_parts(v) {
        Ok((text, first_url, icon)) => Ok(TopicResult { text, first_url, icon }),
        Err(e) => Err(e),
    }
}

/// Decodes a ranked external link.
pub fn decode_external_result(v: &JsonValue) -> (r: Result<ExternalResult, Error>)
    ensures
        view_res(r) == spec_decode_link(*v),
        r is Err ==> r->Err_0 is SchemaDecode,
{
    match decode_link_parts(v) {
        Ok((text, first_url, icon)) => Ok(ExternalResult { text, first_url, icon }),
        Err(e) => Err(e),
    }
}

/// Joins already-decoded links with the rule's outcome on the rest.
pub open spec fn links_join(acc: Seq<LinkModel>, r: Result<Seq<LinkModel>, ErrorModel>) -> Result<
    Seq<LinkModel>,
    ErrorModel,
> {
    match r {
        Ok(rest) => Ok(acc + rest),
        Err(e) => Err(e),
    }
}

/// Decodes the links of a cluster, in order, stopping at the first failure.
fn decode_links(elems: &Vec<JsonValue>) -> (r: Result<Vec<TopicResult>, Error>)
    ensures
        (r is Ok) == (spec_decode_links(elems@) is Ok),
        r is Ok ==> r->Ok_0@.map_values(|t: TopicResult| t@) == spec_decode_links(elems@)->Ok_0,
        r is Err ==> r->Err_0@ == spec_decode_links(elems@)->Err_0,
        r is Err ==> r->Err_0 is SchemaDecode,
{
    let mut acc: Vec<TopicResult> = Vec::new();
    let mut i: usize = 0;
    proof {
        assert(elems@.skip(0) =~= elems@);
        assert(acc@.map_values(|t: TopicResult| t@) =~= Seq::<LinkModel>::empty());
    }
    while i < elems.len()
        invariant
            i <= elems@.len(),
            spec_decode_links(elems@) == links_join(
                acc@.map_values(|t: TopicResult| t@),
                spec_decode_links(elems@.skip(i as int)),
            ),
        decreases elems@.len() - i,
    {
        let ghost old_models = acc@.map_values(|t: TopicResult| t@);
        proof {
            assert(elems@.skip(i as int)[0] == elems@[i as int]);
            assert(elems@.skip(i as int).drop_first() =~= elems@.skip(i as int + 1));
        }
        match decode_topic_result(&elems[i]) {
            Ok(t) => {
                acc.push(t);
                proof {
                    assert(acc@.map_values(|t: TopicResult| t@) =~= old_models + seq![t@]);
                    if spec_decode_links(elems@.skip(i as int + 1)) is Ok {
                        assert((old_models + seq![t@]) + spec_decode_links(
                            elems@.skip(i as int + 1),
                        )->Ok_0 =~= old_models + (seq![t@] + spec_decode_links(
                            elems@.skip(i as int + 1),
                        )->Ok_0));
                    }
                }
            },
            Err(e) => {
                return Err(e);
            },
        }
        i = i + 1;
    }
    proof {
        assert(elems@.skip(elems@.len() as int) =~= Seq::<JsonValue>::empty());
        assert(acc@.map_values(|t: TopicResult| t@) + Seq::<LinkModel>::empty() =~= acc@.map_values(
            |t: TopicResult| t@,
        ));
    }
    Ok(acc)
}

/// Decodes one entry of the related-topics sequence, picking the variant by
/// the keys present.
pub fn decode_related_topic(v: &JsonValue) -> (r: Result<RelatedTopic, Error>)
    ensures
        view_res(r) == spec_decode_related_topic(*v),
        r is Err ==> r->Err_0 is SchemaDecode,
{
    match v {
        JsonValue::Object(fields) => {
            let has_name = get_field(fields, "Name").is_some();
            let has_topics = get_field(fields, "Topics").is_some();
            if has_name && has_topics {
                match get_field(fields, "Name") {
                    Some(JsonValue::Str(n)) => match get_field(fields, "Topics") {
                        Some(JsonValue::Array(elems)) => match decode_links(elems) {
                            Ok(ts) => Ok(
                                RelatedTopic::Group(TopicGroup { name: n.clone(), topics: ts }),
                            ),
                            Err(e) => Err(e),
                        },
                        _ => Err(schema_error("Topics")),
                    },
                    _ => Err(schema_error("Name")),
                }
            } else if get_field(fields, "Text").is_some() && get_field(
                fields,
                "FirstURL",
            ).is_some() {
                match decode_topic_result(v) {
                    Ok(t) => Ok(RelatedTopic::Topic(t)),
                    Err(e) => Err(e),
                }
            } else {
                Err(schema_error("RelatedTopics"))
            }
        },
        _ => Err(schema_error("RelatedTopics")),
    }
}

/// Joins already-decoded topics with the rule's outcome on the rest.
pub open spec fn topics_join(
    acc: Seq<RelatedTopicModel>,
    r: Result<Seq<RelatedTopicModel>, ErrorModel>,
) -> Result<Seq<RelatedTopicModel>, ErrorModel> {
    match r {
        Ok(rest) => Ok(acc + rest),
        Err(e) => Err(e),
    }
}

/// Decodes the related-topics sequence, tagging the first failure with its
/// position.
fn decode_topics(elems: &Vec<JsonValue>) -> (r: Result<Vec<RelatedTopic>, Error>)
    ensures
        (r is Ok) == (spec_decode_topics(elems@, 0) is Ok),
        r is Ok ==> r->Ok_0@.map_values(|t: RelatedTopic| t@) == spec_decode_topics(
            elems@,
            0,
        )->Ok_0,
        r is Err ==> r->Err_0@ == spec_decode_topics(elems@, 0)->Err_0,
        r is Err ==> r->Err_0 is SchemaDecode,
{
    let mut acc: Vec<RelatedTopic> = Vec::new();
    let mut i: usize = 0;
    proof {
        assert(elems@.skip(0) =~= elems@);
        assert(acc@.map_values(|t: RelatedTopic| t@) =~= Seq::<RelatedTopicModel>::empty());
    }
    while i < elems.len()
        invariant
            i <= elems@.len(),
            spec_decode_topics(elems@, 0) == topics_join(
                acc@.map_values(|t: RelatedTopic| t@),
                spec_decode_topics(elems@.skip(i as int), i as usize),
            ),
        decreases elems@.len() - i,
    {
        let ghost old_models = acc@.map_values(|t: RelatedTopic| t@);
        proof {
            assert(elems@.skip(i as int)[0] == elems@[i as int]);
            assert(elems@.skip(i as int).drop_first() =~= elems@.skip(i as int + 1));
        }
        match decode_related_topic(&elems[i]) {
            Ok(t) => {
                acc.push(t);
                proof {
                    assert(acc@.map_values(|t: RelatedTopic| t@) =~= old_models + seq![t@]);
                    if spec_decode_topics(elems@.skip(i as int + 1), (i + 1) as usize) is Ok {
                        assert((old_models + seq![t@]) + spec_decode_topics(
                            elems@.skip(i as int + 1),
                            (i + 1) as usize,
                        )->Ok_0 =~= old_models + (seq![t@] + spec_decode_topics(
                            elems@.skip(i as int + 1),
                            (i + 1) as usize,
                        )->Ok_0));
                    }
                }
            },
            Err(e) => {
                return Err(stamp_index(e, i));
            },
        }
        i = i + 1;
    }
    proof {
        assert(elems@.skip(elems@.len() as int) =~= Seq::<JsonValue>::empty());
        assert(acc@.map_values(|t: RelatedTopic| t@) + Seq::<RelatedTopicModel>::empty()
            =~= acc@.map_values(|t: RelatedTopic| t@));
    }
    Ok(acc)
}

/// Decodes the external-results sequence, tagging the first failure with its
/// position.
fn decode_results(elems: &Vec<JsonValue>) -> (r: Result<Vec<ExternalResult>, Error>)
    ensures
        (r is Ok) == (spec_decode_results(elems@, 0) is Ok),
        r is Ok ==> r->Ok_0@.map_values(|t: ExternalResult| t@) == spec_decode_results(
            elems@,
            0,
        )->Ok_0,
        r is Err ==> r->Err_0@ == spec_decode_results(elems@, 0)->Err_0,
        r is Err ==> r->Err_0 is SchemaDecode,
{
    let mut acc: Vec<ExternalResult> = Vec::new();
    let mut i: usize = 0;
    proof {
        assert(elems@.skip(0) =~= elems@);
        assert(acc@.map_values(|t: ExternalResult| t@) =~= Seq::<LinkModel>::empty());
    }
    while i < elems.len()
        invariant
            i <= elems@.len(),
            spec_decode_results(elems@, 0) == links_join(
                acc@.map_values(|t: ExternalResult| t@),
                spec_decode_results(elems@.skip(i as int), i as usize),
            ),
        decreases elems@.len() - i,
    {
        let ghost old_models = acc@.map_values(|t: ExternalResult| t@);
        proof {
            assert(elems@.skip(i as int)[0] == elems@[i as int]);
            assert(elems@.skip(i as int).drop_first() =~= elems@.skip(i as int + 1));
        }
        match decode_external_result(&elems[i]) {
            Ok(t) => {
                acc.push(t);
                proof {
                    assert(acc@.map_values(|t: ExternalResult| t@) =~= old_models + seq![t@]);
                    if spec_decode_results(elems@.skip(i as int + 1), (i + 1) as usize) is Ok {
                        assert((old_models + seq![t@]) + spec_decode_results(
                            elems@.skip(i as int + 1),
                            (i + 1) as usize,
                        )->Ok_0 =~= old_models + (seq![t@] + spec_decode_results(
                            elems@.skip(i as int + 1),
                            (i + 1) as usize,
                        )->Ok_0));
                    }
                }
            },
            Err(e) => {
                return Err(stamp_index(e, i));
            },
        }
        i = i + 1;
    }
    proof {
        assert(elems@.skip(elems@.len() as int) =~= Seq::<JsonValue>::empty());
        assert(acc@.map_values(|t: ExternalResult| t@) + Seq::<LinkModel>::empty()
            =~= acc@.map_values(|t: ExternalResult| t@));
    }
    Ok(acc)
}

impl Response {
    /// Decodes a parsed JSON document into the typed answer, or fails with a
    /// schema error at the first field that breaks the rules. No partial
    /// answer is ever produced.
    pub fn decode(v: &JsonValue) -> (r: Result<Response, Error>)
        ensures
            view_res(r) == spec_decode_response(*v),
            r is Err ==> r->Err_0 is SchemaDecode,
    {
        match v {
            JsonValue::Object(fields) => {
                let abstract_text = match decode_opt_text(
                    "AbstractText",
                    get_field(fields, "AbstractText"),
                ) {
                    Ok(x) => x,
                    Err(e) => {
                        return Err(e);
                    },
                };
                let abstract_source = match decode_opt_text(
                    "AbstractSource",
                    get_field(fields, "AbstractSource"),
                ) {
                    Ok(x) => x,
                    Err(e) => {
                        return Err(e);
                    },
                };
                let abstract_url = match decode_opt_text(
                    "AbstractURL",
                    get_field(fields, "AbstractURL"),
                ) {
                    Ok(x) => x,
                    Err(e) => {
                        return Err(e);
                    },
                };
                let image = match decode_opt_icon(get_field(fields, "Image")) {
                    Ok(x) => x,
                    Err(e) => {
                        return Err(e);
                    },
                };
                let heading = match decode_text_or_empty("Heading", get_field(fields, "Heading")) {
                    Ok(x) => x,
                    Err(e) => {
                        return Err(e);
                    },
                };
                let answer_text = match decode_opt_text("Answer", get_field(fields, "Answer")) {
                    Ok(x) => x,
                    Err(e) => {
                        return Err(e);
                    },
                };
                let answer_type = match decode_opt_text(
                    "AnswerType",
                    get_field(fields, "AnswerType"),
                ) {
                    Ok(x) => x,
                    Err(e) => {
                        return Err(e);
                    },
                };
                let definition_text = match decode_opt_text(
                    "Definition",
                    get_field(fields, "Definition"),
                ) {
                    Ok(x) => x,
                    Err(e) => {
                        return Err(e);
                    },
                };
                let definition_source = match decode_opt_text(
                    "DefinitionSource",
                    get_field(fields, "DefinitionSource"),
                ) {
                    Ok(x) => x,
                    Err(e) => {
                        return Err(e);
                    },
                };
                let definition_url = match decode_opt_text(
                    "DefinitionURL",
                    get_field(fields, "DefinitionURL"),
                ) {
                    Ok(x) => x,
                    Err(e) => {
                        return Err(e);
                    },
                };
                let answer_category = match decode_type_field(get_field(fields, "Type")) {
                    Ok(x) => x,
                    Err(e) => {
                        return Err(e);
                    },
                };
                let related_topics = match get_field(fields, "RelatedTopics") {
                    None => {
                        let v: Vec<RelatedTopic> = Vec::new();
                        proof {
                            assert(v@.map_values(|t: RelatedTopic| t@)
                                =~= Seq::<RelatedTopicModel>::empty());
                        }
                        v
                    },
                    Some(JsonValue::Null) => {
                        let v: Vec<RelatedTopic> = Vec::new();
                        proof {
                            assert(v@.map_values(|t: RelatedTopic| t@)
                                =~= Seq::<RelatedTopicModel>::empty());
                        }
                        v
                    },
                    Some(JsonValue::Array(elems)) => match decode_topics(elems) {
                        Ok(ts) => ts,
                        Err(e) => {
                            return Err(e);
                        },
                    },
                    Some(_) => {
                        return Err(schema_error("RelatedTopics"));
                    },
                };
                let results = match get_field(fields, "Results") {
                    None => {
                        let v: Vec<ExternalResult> = Vec::new();
                        proof {
                            assert(v@.map_values(|t: ExternalResult| t@)
                                =~= Seq::<LinkModel>::empty());
                        }
                        v
                    },
                    Some(JsonValue::Null) => {
                        let v: Vec<ExternalResult> = Vec::new();
                        proof {
                            assert(v@.map_values(|t: ExternalResult| t@)
                                =~= Seq::<LinkModel>::empty());
                        }
                        v
                    },
                    Some(JsonValue::Array(elems)) => match decode_results(elems) {
                        Ok(rs) => rs,
                        Err(e) => {
                            return Err(e);
                        },
                    },
                    Some(_) => {
                        return Err(schema_error("Results"));
                    },
                };
                Ok(
                    Response {
                        abstract_text,
                        abstract_source,
                        abstract_url,
                        image,
                        heading,
                        answer_text,
                        answer_type,
                        definition_text,
                        definition_source,
                        definition_url,
                        related_topics,
                        results,
                        answer_category,
                    },
                )
            },
            _ => Err(schema_error("root")),
        }
    }

    /// Parses response text and decodes it: the JSON syntax error comes
    /// exactly when the text is not well-formed JSON; otherwise the result is
    /// the decoding rule applied to the collaborator's reading of the text.
    pub fn decode_str(s: &str) -> (r: Result<Response, Error>)
        ensures
            (r is Err && r->Err_0 is JsonSyntax) <==> !json_well_formed(s@),
            json_well_formed(s@) ==> view_res(r) == spec_decode_response(json_doc_of(s@)),
            r is Err ==> r->Err_0 is JsonSyntax || r->Err_0 is SchemaDecode,
    {
        match parse_json(s) {
            Ok(v) => Response::decode(&v),
            Err(e) => Err(e),
        }
    }
}

/// A decode result with its text fields as character sequences.
pub open spec fn res_model(r: Result<Response, Error>) -> Result<ResponseModel, ErrorModel> {
    view_res(r)
}

/// Law: decoding is a pure function of the document — decoding equal
/// documents, any number of times, yields structurally equal results.
pub proof fn lemma_decode_deterministic(
    v1: JsonValue,
    v2: JsonValue,
    r1: Result<Response, Error>,
    r2: Result<Response, Error>,
)
    requires
        v1 == v2,
        res_model(r1) == spec_decode_response(v1),
        res_model(r2) == spec_decode_response(v2),
    ensures
        res_model(r1) == res_model(r2),
{
}

} // verus!
