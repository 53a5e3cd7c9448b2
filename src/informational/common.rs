//! Items shared by the informational requests.


use vstd::prelude::*;

verus! {

/// Represents a report format in a response.
#[derive(Clone, Copy, Debug, PartialEq, Eq, Structural)]
pub enum ResponseFormat {
    Json,
    Csv,
    Xml,
}

}
