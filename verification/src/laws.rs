//! What the resolver guarantees, stated once and proved: the laws of the
//! format cascade and of the environment fallback.

use vstd::prelude::*;

use crate::data::{first_ok, fmt_ok, fmt_tag, json_ok, order_from, toml_ok, yaml_ok, DataTag, Fmt};
use crate::resolver::{
    cascade_diag_tags, cascade_tag, ext_text, resolve_diag_tags, resolve_tag, spec_hint, DiagTag,
    Hint,
};

verus! {

/// A file whose extension names its true format parses on the first attempt:
/// the resolved data carries that format's tag and no diagnostic is emitted.
pub proof fn lemma_matching_hint_first_try(path: Seq<char>, content: Seq<char>, strict: bool, f: Fmt)
    requires
        spec_hint(ext_text(path)) == Hint::Known(f),
        fmt_ok(f, content),
    ensures
        resolve_tag(Some(path), Some(content), strict) == Some(fmt_tag(f)),
        resolve_diag_tags(Some(path), Some(content), strict) == Seq::<DiagTag>::empty(),
{
    assert(order_from(f)[0] == f);
    assert(first_ok(f, content) == 0);
    assert(cascade_diag_tags(f, content, strict) =~= Seq::<DiagTag>::empty());
}

/// Format correctness is independent of the extension: whatever format the
/// hint made the cascade start at, if the content's true format is among the
/// three of the rotation, the cascade resolves to the first format that
/// truly parses, within its three-attempt budget.
pub proof fn lemma_cascade_finds_true_format(start: Fmt, content: Seq<char>, strict: bool)
    requires
        exists|i: int| 0 <= i < 3 && fmt_ok(order_from(start)[i], content),
    ensures
        0 <= first_ok(start, content) < 3,
        fmt_ok(order_from(start)[first_ok(start, content)], content),
        forall|j: int|
            0 <= j < first_ok(start, content) ==> !fmt_ok(order_from(start)[j], content),
        cascade_tag(start, content, strict) == Some(
            fmt_tag(order_from(start)[first_ok(start, content)]),
        ),
{
    let i = choose|i: int| 0 <= i < 3 && fmt_ok(order_from(start)[i], content);
    assert(fmt_ok(order_from(start)[i], content));
}

/// Content valid in none of the three formats, strict mode off: the cascade
/// resolves to the environment, after three parse failures and exactly one
/// notice that the environment is used — the notice comes last.
pub proof fn lemma_exhausted_lenient(start: Fmt, content: Seq<char>)
    requires
        !yaml_ok(content),
        !json_ok(content),
        !toml_ok(content),
    ensures
        cascade_tag(start, content, false) == Some(DataTag::Env),
        cascade_diag_tags(start, content, false).len() == 4,
        cascade_diag_tags(start, content, false)[3] is UsingEnv,
        forall|j: int| 0 <= j < 3 ==> cascade_diag_tags(start, content, false)[j] is ParseFailed,
{
    assert(first_ok(start, content) == 3);
    assert(order_from(start).take(3) =~= order_from(start));
}

/// Content valid in none of the three formats, strict mode on: the cascade
/// ends in the fatal state — no data value, in particular no environment
/// fallback — and never announces the environment.
pub proof fn lemma_exhausted_strict_fatal(start: Fmt, content: Seq<char>)
    requires
        !yaml_ok(content),
        !json_ok(content),
        !toml_ok(content),
    ensures
        cascade_tag(start, content, true) is None,
        forall|j: int|
            0 <= j < cascade_diag_tags(start, content, true).len() ==> !(cascade_diag_tags(
                start,
                content,
                true,
            )[j] is UsingEnv),
{
    assert(first_ok(start, content) == 3);
    assert(order_from(start).take(3) =~= order_from(start));
}

/// The lenient guarantee at the resolver's surface: with a data file present
/// and its content read, unparseable content under lenient mode resolves to
/// the environment, whatever the extension, and the diagnostics announce
/// that exactly once — as their last line.
pub proof fn lemma_resolve_exhausted_lenient(path: Seq<char>, content: Seq<char>)
    requires
        !yaml_ok(content),
        !json_ok(content),
        !toml_ok(content),
    ensures
        resolve_tag(Some(path), Some(content), false) == Some(DataTag::Env),
        ({
            let ds = resolve_diag_tags(Some(path), Some(content), false);
            &&& ds.len() >= 1
            &&& ds[ds.len() - 1] is UsingEnv
            &&& forall|j: int| 0 <= j < ds.len() - 1 ==> !(ds[j] is UsingEnv)
        }),
{
    match spec_hint(ext_text(path)) {
        Hint::Known(f) => {
            lemma_exhausted_lenient(f, content);
        },
        Hint::Unknown => {
            lemma_exhausted_lenient(Fmt::Yaml, content);
            let ds = resolve_diag_tags(Some(path), Some(content), false);
            let tail = cascade_diag_tags(Fmt::Yaml, content, false);
            assert(ds == seq![DiagTag::UnknownExtension(ext_text(path))] + tail);
            assert(ds.len() == 5);
            assert(ds[4] == tail[3]);
            assert(forall|j: int| 1 <= j < 4 ==> ds[j] == tail[j - 1]);
        },
    }
}

/// The strict guarantee at the resolver's surface: with a data file present
/// and its content read, unparseable content under strict mode yields no
/// data value at all, whatever the extension.
pub proof fn lemma_resolve_strict_no_env(path: Seq<char>, content: Seq<char>)
    requires
        !yaml_ok(content),
        !json_ok(content),
        !toml_ok(content),
    ensures
        resolve_tag(Some(path), Some(content), true) is None,
{
    match spec_hint(ext_text(path)) {
        Hint::Known(f) => lemma_exhausted_strict_fatal(f, content),
        Hint::Unknown => lemma_exhausted_strict_fatal(Fmt::Yaml, content),
    }
}

/// No data path supplied: the environment is the data source at once, with
/// no diagnostics, whatever the strict flag and whatever content is around.
pub proof fn lemma_no_data_file(content: Option<Seq<char>>, strict: bool)
    ensures
        resolve_tag(None, content, strict) == Some(DataTag::Env),
        resolve_diag_tags(None, content, strict) == Seq::<DiagTag>::empty(),
{
}

/// An unrecognized extension is announced once, and the cascade then runs
/// from YAML with its full three-attempt budget.
pub proof fn lemma_unknown_extension(path: Seq<char>, content: Seq<char>, strict: bool)
    requires
        spec_hint(ext_text(path)) is Unknown,
    ensures
        resolve_tag(Some(path), Some(content), strict) == cascade_tag(Fmt::Yaml, content, strict),
        resolve_diag_tags(Some(path), Some(content), strict) == seq![
            DiagTag::UnknownExtension(ext_text(path)),
        ] + cascade_diag_tags(Fmt::Yaml, content, strict),
{
}

/// The unknown-extension scenario on true TOML content: YAML fails, JSON
/// fails, TOML succeeds — three attempts in all, so the diagnostics are the
/// extension notice and two parse failures.
pub proof fn lemma_unknown_extension_toml(path: Seq<char>, content: Seq<char>, strict: bool)
    requires
        spec_hint(ext_text(path)) is Unknown,
        !yaml_ok(content),
        !json_ok(content),
        toml_ok(content),
    ensures
        resolve_tag(Some(path), Some(content), strict) == Some(DataTag::Toml),
        resolve_diag_tags(Some(path), Some(content), strict) == seq![
            DiagTag::UnknownExtension(ext_text(path)),
            DiagTag::ParseFailed(Fmt::Yaml),
            DiagTag::ParseFailed(Fmt::Json),
        ],
{
    assert(first_ok(Fmt::Yaml, content) == 2);
    assert(order_from(Fmt::Yaml)[2] == Fmt::Toml);
    assert(resolve_diag_tags(Some(path), Some(content), strict) =~= seq![
        DiagTag::UnknownExtension(ext_text(path)),
        DiagTag::ParseFailed(Fmt::Yaml),
        DiagTag::ParseFailed(Fmt::Json),
    ]);
}

} // verus!
