//! What an application declares of its services.

use crate::protobuf::ProtobufService;
use vstd::prelude::*;

verus! {

/// The services of an application. An application that says nothing has
/// none.
pub trait Service {
    fn protobuf_services() -> (services: Vec<ProtobufService>)
        default_ensures
            services@ == Seq::<ProtobufService>::empty(),
    {
        Vec::new()
    }
}

} // verus!
