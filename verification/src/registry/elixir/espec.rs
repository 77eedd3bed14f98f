//! The ESpec test framework.

use super::Elixir;
use vstd::prelude::*;

verus! {

/// ESpec: spec files end in `_spec.exs` and run through `mix espec`.
#[derive(Debug)]
pub struct ESpec {
    pub language: Elixir,
    /// The file pattern a suitable path must match.
    pub pattern: String,
    /// The fixed executable.
    pub executable: Vec<String>,
    /// No line-level test pattern: ESpec runs per file.
    pub test_pattern: String,
    pub namespace_pattern: String,
}

impl Default for ESpec {
    fn default() -> (r: Self)
        ensures
            r.pattern@ == r"_spec\.exs$"@,
            r.executable@.len() == 2,
            r.executable@[0]@ == "mix"@,
            r.executable@[1]@ == "espec"@,
            r.test_pattern@ == Seq::<char>::empty(),
            r.namespace_pattern@ == Seq::<char>::empty(),
    {
        let mut executable: Vec<String> = Vec::new();
        executable.push(String::from_str("mix"));
        executable.push(String::from_str("espec"));
        ESpec {
            language: Elixir {  },
            pattern: String::from_str(r"_spec\.exs$"),
            executable,
            test_pattern: String::new(),
            namespace_pattern: String::new(),
        }
    }
}

} // verus!
