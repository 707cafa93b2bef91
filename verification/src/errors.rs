//! The errors that operations on the world report.

use vstd::prelude::*;
use crate::grid::{Ent, PartCoord};
use crate::part_layer::PartLayer;

verus! {

#[verifier::external_type_specification]
#[verifier::external_body]
pub struct ExTomlSerError(toml::ser::Error);

#[verifier::external_type_specification]
#[verifier::external_body]
pub struct ExTomlDeError(toml::de::Error);

/// Gives `Clone::clone` of `toml::ser::Error` a contract, so that errors
/// holding one can be cloned. Nothing is claimed of the clone.
pub assume_specification[ <toml::ser::Error as Clone>::clone ](e: &toml::ser::Error) -> (r: toml::ser::Error);

/// Gives `Clone::clone` of `toml::de::Error` a contract, so that errors
/// holding one can be cloned. Nothing is claimed of the clone.
pub assume_specification[ <toml::de::Error as Clone>::clone ](e: &toml::de::Error) -> (r: toml::de::Error);

/// Why an operation on the world failed.
#[derive(Debug, Clone, PartialEq, Eq)]
pub enum BaryError {
    EntityNotFound(Ent),
    BadPartName,
    BadBlueprint,
    FailedToSaveBlueprint,
    FailedToSaveGrid,
    SaveAlreadyExists,
    NoPrimaryComputer,
    GridSpaceOccupied,
    NoPartsAt(PartCoord),
    NoPartsInLayer(PartLayer),
    NoInvSlot(usize),
    NoInvAt(PartCoord),
    PartHasNoInv(Ent),
    ZeroPipeExtent,
    SameInvSlot(Ent, usize),
    NoPartWithName(String),
    NoChunk,
    NoTile,
    TileAlreadyExists,
    IoError(String),
    SerdeYaml(String),
    TomlSer(toml::ser::Error),
    TomlDe(toml::de::Error),
}

impl From<toml::ser::Error> for BaryError {
    fn from(value: toml::ser::Error) -> (e: Self) {
        BaryError::TomlSer(value)
    }
}

impl vstd::std_specs::convert::FromSpecImpl<toml::ser::Error> for BaryError {
    open spec fn obeys_from_spec() -> bool {
        true
    }

    open spec fn from_spec(value: toml::ser::Error) -> Self {
        BaryError::TomlSer(value)
    }
}

impl From<toml::de::Error> for BaryError {
    fn from(value: toml::de::Error) -> (e: Self) {
        BaryError::TomlDe(value)
    }
}

impl vstd::std_specs::convert::FromSpecImpl<toml::de::Error> for BaryError {
    open spec fn obeys_from_spec() -> bool {
        true
    }

    open spec fn from_spec(value: toml::de::Error) -> Self {
        BaryError::TomlDe(value)
    }
}

} // verus!
