//! Outside types that the library carries without looking inside.
use vstd::prelude::*;

verus! {

#[verifier::external_type_specification]
#[verifier::external_body]
pub struct ExtIniError(serde_ini::de::Error);

#[verifier::external_type_specification]
#[verifier::external_body]
pub struct ExtJsonError(serde_json::Error);

#[verifier::external_type_specification]
#[verifier::external_body]
pub struct ExtTomlError(toml::de::Error);

#[verifier::external_type_specification]
#[verifier::external_body]
pub struct ExtYamlError(yaml_serde::Error);

} // verus!
