//! The YAML parser, `yaml_rust::YamlLoader`. Nothing in this file is
//! proved: the one call is made here, on texts of bounded nesting only.

use vstd::prelude::*;
use yaml_rust::YamlLoader;
use crate::nesting::{nested_yaml, MAX_NESTING_DEPTH};

verus! {

/// Whether `YamlLoader::load_from_str` accepts a text, that is, returns
/// `Ok`. The loader reads nothing but the text.
pub uninterp spec fn yaml_loads(text: Seq<char>) -> bool;

/// `YamlLoader::load_from_str` on a nested flow mapping of at most
/// `MAX_NESTING_DEPTH` levels. The loader descends once per level, so on
/// these texts it returns; the result says whether it returned `Ok`.
#[verifier::external_body]
pub(crate) fn load_yaml(text: &str) -> (loads: bool)
    requires
        exists|depth: nat| depth <= MAX_NESTING_DEPTH && #[trigger] nested_yaml(depth) == text@,
    ensures
        loads == yaml_loads(text@),
{
    YamlLoader::load_from_str(text).is_ok()
}

} // verus!
