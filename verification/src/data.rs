//! The three supported data formats, the parsers behind them, and the
//! resolved [`Data`] value that a template is rendered against.

use vstd::prelude::*;

verus! {

// The parsed value trees of the three format crates, declared so that a
// `Data` value can carry them.  Verus sees them as opaque.
#[verifier::external_type_specification]
#[verifier::external_body]
pub struct ExJsonValue(serde_json::Value);

#[verifier::external_type_specification]
#[verifier::external_body]
pub struct ExYamlValue(serde_yaml::Value);

#[verifier::external_type_specification]
#[verifier::external_body]
pub struct ExTomlValue(toml::Value);

/// Whether a string is a well-formed JSON document.  Parsing a string is a
/// function of its characters alone, so the outcome can be given a name.
pub uninterp spec fn json_ok(s: Seq<char>) -> bool;

/// Whether a string is a well-formed YAML document.
pub uninterp spec fn yaml_ok(s: Seq<char>) -> bool;

/// Whether a string is a well-formed TOML document.
pub uninterp spec fn toml_ok(s: Seq<char>) -> bool;

/// Relies on `serde_json::from_str::<serde_json::Value>`: deserializes a
/// string into a JSON tree; success depends on the characters alone.  The
/// error is carried as its display text.
#[verifier::external_body]
fn parse_json(s: &str) -> (r: Result<serde_json::Value, String>)
    ensures
        r is Ok <==> json_ok(s@),
{
    serde_json::from_str::<serde_json::Value>(s).map_err(|e| format!("{e}"))
}

/// Relies on `serde_yaml::from_str::<serde_yaml::Value>`: deserializes a
/// string into a YAML tree; success depends on the characters alone.
#[verifier::external_body]
fn parse_yaml(s: &str) -> (r: Result<serde_yaml::Value, String>)
    ensures
        r is Ok <==> yaml_ok(s@),
{
    serde_yaml::from_str::<serde_yaml::Value>(s).map_err(|e| format!("{e}"))
}

/// Relies on `toml::from_str::<toml::Value>`: deserializes a string into a
/// TOML tree; success depends on the characters alone.
#[verifier::external_body]
fn parse_toml(s: &str) -> (r: Result<toml::Value, String>)
    ensures
        r is Ok <==> toml_ok(s@),
{
    toml::from_str::<toml::Value>(s).map_err(|e| format!("{e}"))
}

/// One of the three self-describing formats the cascade rotates through.
#[derive(Clone, Copy, Debug, PartialEq, Eq, Structural)]
pub enum Fmt {
    Yaml,
    Json,
    Toml,
}

/// The format the cascade tries after `f` fails to parse the content.
pub open spec fn next_fmt(f: Fmt) -> Fmt {
    match f {
        Fmt::Yaml => Fmt::Json,
        Fmt::Json => Fmt::Toml,
        Fmt::Toml => Fmt::Yaml,
    }
}

/// The rotation of the three formats beginning at `start`; each of the three
/// appears exactly once, which is what bounds the cascade.
pub open spec fn order_from(start: Fmt) -> Seq<Fmt> {
    seq![start, next_fmt(start), next_fmt(next_fmt(start))]
}

/// Whether `content` parses as format `f`.
pub open spec fn fmt_ok(f: Fmt, content: Seq<char>) -> bool {
    match f {
        Fmt::Yaml => yaml_ok(content),
        Fmt::Json => json_ok(content),
        Fmt::Toml => toml_ok(content),
    }
}

/// Position of the first format in the rotation from `start` that parses
/// `content`, or 3 when none of the three does.
pub open spec fn first_ok(start: Fmt, content: Seq<char>) -> int {
    if fmt_ok(order_from(start)[0], content) {
        0
    } else if fmt_ok(order_from(start)[1], content) {
        1
    } else if fmt_ok(order_from(start)[2], content) {
        2
    } else {
        3
    }
}

impl Fmt {
    /// The format tried after this one when parsing fails.
    pub fn successor(&self) -> (r: Fmt)
        ensures
            r == next_fmt(*self),
    {
        match self {
            Fmt::Yaml => Fmt::Json,
            Fmt::Json => Fmt::Toml,
            Fmt::Toml => Fmt::Yaml,
        }
    }
}

/// The rotation of [`order_from`] as an executable list.
pub fn order_vec(start: Fmt) -> (r: Vec<Fmt>)
    ensures
        r@ == order_from(start),
{
    let second = start.successor();
    let third = second.successor();
    let mut v: Vec<Fmt> = Vec::new();
    v.push(start);
    v.push(second);
    v.push(third);
    proof {
        assert(v@ =~= order_from(start));
    }
    v
}

/// The resolved rendering context.  Exactly one variant is populated per
/// resolution; the variant is chosen by the cascade, never directly by the
/// user.
pub enum Data {
    Json(serde_json::Value),
    Yaml(serde_yaml::Value),
    Toml(toml::Value),
    /// The process environment, as key/value pairs with unique keys, ordered
    /// by key; the caller captures it once and passes it in.
    Env(Vec<(String, String)>),
}

/// The tag of a `Data` value: which variant holds the context.
pub enum DataTag {
    Json,
    Yaml,
    Toml,
    Env,
}

/// The tag a successful parse in format `f` produces.
pub open spec fn fmt_tag(f: Fmt) -> DataTag {
    match f {
        Fmt::Yaml => DataTag::Yaml,
        Fmt::Json => DataTag::Json,
        Fmt::Toml => DataTag::Toml,
    }
}

/// Which variant of `Data` is populated.
pub open spec fn tag_of(d: Data) -> DataTag {
    match d {
        Data::Json(_) => DataTag::Json,
        Data::Yaml(_) => DataTag::Yaml,
        Data::Toml(_) => DataTag::Toml,
        Data::Env(_) => DataTag::Env,
    }
}

/// One attempt of the cascade: parse `content` as format `f`, tagging the
/// result with that format, or hand back the parser's error text.
pub fn try_format(f: Fmt, content: &str) -> (r: Result<Data, String>)
    ensures
        r is Ok <==> fmt_ok(f, content@),
        r matches Ok(d) ==> tag_of(d) == fmt_tag(f),
{
    match f {
        Fmt::Yaml => match parse_yaml(content) {
            Ok(v) => Ok(Data::Yaml(v)),
            Err(e) => Err(e),
        },
        Fmt::Json => match parse_json(content) {
            Ok(v) => Ok(Data::Json(v)),
            Err(e) => Err(e),
        },
        Fmt::Toml => match parse_toml(content) {
            Ok(v) => Ok(Data::Toml(v)),
            Err(e) => Err(e),
        },
    }
}

} // verus!
