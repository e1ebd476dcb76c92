//! Sources used as input to generate a response: a URL, or a document with
//! its media type.

use vstd::prelude::*;
use crate::json_value::JSONValue;

verus! {

/// Additional provider metadata attached to a source.
pub type SharedProviderMetadataV3 = JSONValue;

/// A source that has been used as input to generate the response. A
/// document's media type is carried as its IANA name, such as
/// "application/pdf".
#[derive(Debug)]
pub enum LanguageModelV3Source {
    URl {
        id: String,
        url: String,
        title: Option<String>,
        provider_metadata: Option<SharedProviderMetadataV3>,
    },
    Document {
        id: String,
        media_type: String,
        title: String,
        file_name: Option<String>,
        provider_metadata: Option<SharedProviderMetadataV3>,
    },
}

} // verus!
