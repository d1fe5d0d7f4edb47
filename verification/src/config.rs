//! The resolved command-line invocation: a value object constructed once at
//! process start and read-only thereafter.

use vstd::prelude::*;

use crate::data::Data;
use crate::resolver::{
    diag_tags, opt_path_view, opt_text_view, res_tag, resolve, resolve_diag_tags, resolve_tag,
    Diag, Resolution,
};
use crate::text::str_eq;

verus! {

/// Resolved command-line inputs of the templating tool.
#[derive(Debug)]
pub struct Config {
    /// Template file to use; `-` means standard input.
    pub template: String,
    /// File to grab data from.  If not supplied, environment variables are
    /// used.  Reading from JSON, YAML and TOML is supported.
    pub data: Option<String>,
    /// Output path.  If empty, output goes to standard output.
    pub output: Option<String>,
    /// Strict mode: errors when a value is in the template and can't be
    /// found in the data, and disables reading data from the environment
    /// when the data file can't be parsed.
    pub strict: bool,
}

impl Config {
    /// Whether the template argument is the sentinel `-`, meaning the
    /// template is read from standard input.
    pub fn get_template_path_is_stdin(&self) -> (r: bool)
        ensures
            r == (self.template@ == "-"@),
    {
        str_eq(self.template.as_str(), "-")
    }

    /// Resolves this invocation's data source.  The caller reads the data
    /// file (`None` when no path was given or the read failed, which falls
    /// back to the environment even under strict mode) and captures the
    /// environment listing once; everything else — extension, hint, cascade —
    /// is decided here.
    pub fn get_data(&self, file_content: Option<String>, env: Vec<(String, String)>) -> (r: (
        Resolution,
        Vec<Diag>,
    ))
        ensures
            res_tag(r.0) == resolve_tag(
                opt_text_view(self.data),
                opt_text_view(file_content),
                self.strict,
            ),
            diag_tags(r.1@) == resolve_diag_tags(
                opt_text_view(self.data),
                opt_text_view(file_content),
                self.strict,
            ),
            r.0 matches Resolution::Resolved(Data::Env(e)) ==> e@ == env@,
    {
        let path = self.data.as_ref();
        proof {
            assert(opt_path_view(path) == opt_text_view(self.data));
        }
        resolve(path, file_content, self.strict, env)
    }
}

} // verus!
