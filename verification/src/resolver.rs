//! The data resolver: turns a possibly absent data file, whose extension may
//! be absent or unreliable, into one [`Data`] value, by a bounded cascade of
//! deserialization attempts with the process environment as fallback.
//!
//! Terminal states are [`Resolution::Resolved`], carrying the data, and
//! [`Resolution::FatalStrictFailure`], reached only when strict mode is on
//! and every attempt of the cascade failed.

use vstd::prelude::*;

use crate::data::{
    first_ok, fmt_ok, fmt_tag, order_from, order_vec, tag_of, try_format, Data, DataTag, Fmt,
};
use crate::text::{extension_of, spec_extension, str_eq};

verus! {

/// The format hint taken from a data file's extension.
#[derive(Clone, Copy, Debug, PartialEq, Eq, Structural)]
pub enum Hint {
    /// The extension names one of the three supported formats.
    Known(Fmt),
    /// An extension that names no supported format — an empty or missing one
    /// included: it is announced, and the cascade starts at YAML with its
    /// full budget.
    Unknown,
}

/// The hint an extension string gives.  Recognition is exact and
/// case-sensitive: `yaml`, `yml`, `json`, `toml`; anything else, the empty
/// string included, is unrecognized.
pub open spec fn spec_hint(ext: Seq<char>) -> Hint {
    if ext == "yaml"@ || ext == "yml"@ {
        Hint::Known(Fmt::Yaml)
    } else if ext == "json"@ {
        Hint::Known(Fmt::Json)
    } else if ext == "toml"@ {
        Hint::Known(Fmt::Toml)
    } else {
        Hint::Unknown
    }
}

/// The extension of a path as the resolver reports it: the empty string
/// stands in for a missing one.
pub open spec fn ext_text(p: Seq<char>) -> Seq<char> {
    match spec_extension(p) {
        Some(e) => e,
        None => Seq::empty(),
    }
}

/// Reads the hint off an extension string.
pub fn hint_of(ext: &str) -> (h: Hint)
    ensures
        h == spec_hint(ext@),
{
    if str_eq(ext, "yaml") || str_eq(ext, "yml") {
        Hint::Known(Fmt::Yaml)
    } else if str_eq(ext, "json") {
        Hint::Known(Fmt::Json)
    } else if str_eq(ext, "toml") {
        Hint::Known(Fmt::Toml)
    } else {
        Hint::Unknown
    }
}

/// One diagnostic of a resolution, as a value; the caller decides how to
/// print them.
pub enum Diag {
    /// A parse attempt failed; `message` is the parser's error text, and the
    /// cascade moves on to the successor format.
    ParseFailed { failed: Fmt, message: String },
    /// The extension names no supported format; the cascade starts at YAML.
    UnknownExtension { extension: String },
    /// Nothing parsed and strict mode is off: the environment is used.
    UsingEnv,
}

/// A diagnostic stripped of its free-form message text, for contracts.
pub enum DiagTag {
    ParseFailed(Fmt),
    UnknownExtension(Seq<char>),
    UsingEnv,
}

/// The tag of one diagnostic.
pub open spec fn diag_tag(d: Diag) -> DiagTag {
    match d {
        Diag::ParseFailed { failed, message } => DiagTag::ParseFailed(failed),
        Diag::UnknownExtension { extension } => DiagTag::UnknownExtension(extension@),
        Diag::UsingEnv => DiagTag::UsingEnv,
    }
}

/// The tags of a diagnostic list.
pub open spec fn diag_tags(ds: Seq<Diag>) -> Seq<DiagTag> {
    ds.map_values(|d: Diag| diag_tag(d))
}

/// Terminal states of the resolver.
pub enum Resolution {
    /// A data value was produced.
    Resolved(Data),
    /// Strict mode and the cascade exhausted: fatal, no environment fallback.
    FatalStrictFailure,
}

/// The tag of a resolution: which variant of `Data` was produced, or `None`
/// for the fatal state.
pub open spec fn res_tag(r: Resolution) -> Option<DataTag> {
    match r {
        Resolution::Resolved(d) => Some(tag_of(d)),
        Resolution::FatalStrictFailure => None,
    }
}

/// Where the cascade starts for a hint: at the named format, or at YAML for
/// an unrecognized extension.
pub open spec fn start_of(h: Hint) -> Fmt {
    match h {
        Hint::Known(f) => f,
        Hint::Unknown => Fmt::Yaml,
    }
}

/// The outcome tag of the cascade from `start` over `content`: the first
/// format of the rotation that parses, else the environment, or — under
/// strict mode — no outcome at all.
pub open spec fn cascade_tag(start: Fmt, content: Seq<char>, strict: bool) -> Option<DataTag> {
    let k = first_ok(start, content);
    if k < 3 {
        Some(fmt_tag(order_from(start)[k]))
    } else if strict {
        None
    } else {
        Some(DataTag::Env)
    }
}

/// The diagnostics the cascade emits: one parse failure per failed attempt,
/// then, when all three failed and strict mode is off, the environment
/// notice.
pub open spec fn cascade_diag_tags(start: Fmt, content: Seq<char>, strict: bool) -> Seq<DiagTag> {
    let k = first_ok(start, content);
    let fails = order_from(start).take(if k < 3 {
        k
    } else {
        3
    }).map_values(|f: Fmt| DiagTag::ParseFailed(f));
    if k == 3 && !strict {
        fails.push(DiagTag::UsingEnv)
    } else {
        fails
    }
}

/// The outcome tag of serializing `content` under an extension hint.
pub open spec fn serialize_tag(ext: Seq<char>, content: Seq<char>, strict: bool) -> Option<
    DataTag,
> {
    cascade_tag(start_of(spec_hint(ext)), content, strict)
}

/// The diagnostics of serializing `content` under an extension hint: an
/// unrecognized extension is announced before its cascade.
pub open spec fn serialize_diag_tags(ext: Seq<char>, content: Seq<char>, strict: bool) -> Seq<
    DiagTag,
> {
    if spec_hint(ext) is Unknown {
        seq![DiagTag::UnknownExtension(ext)] + cascade_diag_tags(Fmt::Yaml, content, strict)
    } else {
        cascade_diag_tags(start_of(spec_hint(ext)), content, strict)
    }
}

/// The view of an optional borrowed path.
pub open spec fn opt_path_view(p: Option<&String>) -> Option<Seq<char>> {
    match p {
        Some(s) => Some(s@),
        None => None,
    }
}

/// The view of optional owned text.
pub open spec fn opt_text_view(c: Option<String>) -> Option<Seq<char>> {
    match c {
        Some(s) => Some(s@),
        None => None,
    }
}

/// The outcome tag of a full resolution: without a path or without readable
/// content the environment is used at once; otherwise the extension decides
/// the cascade.
pub open spec fn resolve_tag(
    path: Option<Seq<char>>,
    content: Option<Seq<char>>,
    strict: bool,
) -> Option<DataTag> {
    match (path, content) {
        (Some(p), Some(c)) => serialize_tag(ext_text(p), c, strict),
        _ => Some(DataTag::Env),
    }
}

/// The diagnostics of a full resolution.
pub open spec fn resolve_diag_tags(
    path: Option<Seq<char>>,
    content: Option<Seq<char>>,
    strict: bool,
) -> Seq<DiagTag> {
    match (path, content) {
        (Some(p), Some(c)) => serialize_diag_tags(ext_text(p), c, strict),
        _ => Seq::empty(),
    }
}

/// Runs the format cascade from `start` over `content`: at most three parse
/// attempts, one per format of the rotation, each failure recorded in
/// `diags`; on exhaustion the environment is used, unless strict mode makes
/// that fatal.
pub fn run_cascade(
    content: &str,
    start: Fmt,
    strict: bool,
    env: Vec<(String, String)>,
    diags: &mut Vec<Diag>,
) -> (r: Resolution)
    ensures
        res_tag(r) == cascade_tag(start, content@, strict),
        diag_tags(final(diags)@) == diag_tags(old(diags)@) + cascade_diag_tags(
            start,
            content@,
            strict,
        ),
        r matches Resolution::Resolved(Data::Env(e)) ==> e@ == env@,
{
    let ord = order_vec(start);
    let mut i: usize = 0;
    while i < 3
        invariant
            i <= 3,
            ord@ == order_from(start),
            forall|j: int| 0 <= j < i ==> !fmt_ok(ord@[j], content@),
            diag_tags(diags@) == diag_tags(old(diags)@) + ord@.take(i as int).map_values(
                |f: Fmt| DiagTag::ParseFailed(f),
            ),
        decreases 3 - i,
    {
        let f = ord[i];
        match try_format(f, content) {
            Ok(d) => {
                proof {
                    assert(first_ok(start, content@) == i);
                }
                return Resolution::Resolved(d);
            },
            Err(message) => {
                let ghost before = diags@;
                diags.push(Diag::ParseFailed { failed: f, message });
                proof {
                    assert(diag_tags(before.push(
                        Diag::ParseFailed { failed: f, message },
                    )) =~= diag_tags(before).push(DiagTag::ParseFailed(f)));
                    assert(ord@.take((i + 1) as int).map_values(
                        |f: Fmt| DiagTag::ParseFailed(f),
                    ) =~= ord@.take(i as int).map_values(|f: Fmt| DiagTag::ParseFailed(f)).push(
                        DiagTag::ParseFailed(f),
                    ));
                    assert(diag_tags(diags@) =~= diag_tags(old(diags)@) + ord@.take(
                        (i + 1) as int,
                    ).map_values(|f: Fmt| DiagTag::ParseFailed(f)));
                }
                i += 1;
            },
        }
    }
    proof {
        assert(first_ok(start, content@) == 3);
        assert(ord@.take(3) =~= ord@);
    }
    if strict {
        Resolution::FatalStrictFailure
    } else {
        let ghost before = diags@;
        diags.push(Diag::UsingEnv);
        proof {
            assert(diag_tags(before.push(Diag::UsingEnv)) =~= diag_tags(before).push(
                DiagTag::UsingEnv,
            ));
            assert(diag_tags(diags@) =~= diag_tags(old(diags)@) + cascade_diag_tags(
                start,
                content@,
                strict,
            ));
        }
        Resolution::Resolved(Data::Env(env))
    }
}

/// Serializes read file content under an extension hint, the entry point of
/// the cascade: a known extension starts there; an unrecognized one — the
/// empty extension included — is announced and starts at YAML.
pub fn serialize_data(
    content: &str,
    file_extension: &str,
    strict: bool,
    env: Vec<(String, String)>,
    diags: &mut Vec<Diag>,
) -> (r: Resolution)
    ensures
        res_tag(r) == serialize_tag(file_extension@, content@, strict),
        diag_tags(final(diags)@) == diag_tags(old(diags)@) + serialize_diag_tags(
            file_extension@,
            content@,
            strict,
        ),
        r matches Resolution::Resolved(Data::Env(e)) ==> e@ == env@,
{
    let h = hint_of(file_extension);
    match h {
        Hint::Known(f) => run_cascade(content, f, strict, env, diags),
        Hint::Unknown => {
            let ghost before = diags@;
            let d = Diag::UnknownExtension { extension: file_extension.to_owned() };
            diags.push(d);
            proof {
                assert(diag_tags(before.push(d)) =~= diag_tags(before).push(
                    DiagTag::UnknownExtension(file_extension@),
                ));
            }
            let r = run_cascade(content, Fmt::Yaml, strict, env, diags);
            proof {
                assert(diag_tags(diags@) =~= diag_tags(old(diags)@) + serialize_diag_tags(
                    file_extension@,
                    content@,
                    strict,
                ));
            }
            r
        },
    }
}

/// Resolves a data source: no path or unreadable content falls back to the
/// environment at once; otherwise the file's extension picks the cascade.
/// The environment listing is captured by the caller and passed in.
pub fn resolve(
    data_path: Option<&String>,
    file_content: Option<String>,
    strict: bool,
    env: Vec<(String, String)>,
) -> (r: (Resolution, Vec<Diag>))
    ensures
        res_tag(r.0) == resolve_tag(opt_path_view(data_path), opt_text_view(file_content), strict),
        diag_tags(r.1@) == resolve_diag_tags(
            opt_path_view(data_path),
            opt_text_view(file_content),
            strict,
        ),
        r.0 matches Resolution::Resolved(Data::Env(e)) ==> e@ == env@,
{
    let mut diags: Vec<Diag> = Vec::new();
    match (data_path, file_content) {
        (Some(p), Some(c)) => {
            let ext = extension_of(p.as_str());
            let r = match ext {
                Some(e) => serialize_data(c.as_str(), e.as_str(), strict, env, &mut diags),
                None => {
                    proof {
                        reveal_strlit("");
                        assert(""@ =~= ext_text(p@));
                    }
                    serialize_data(c.as_str(), "", strict, env, &mut diags)
                },
            };
            (r, diags)
        },
        _ => (Resolution::Resolved(Data::Env(env)), diags),
    }
}

} // verus!
