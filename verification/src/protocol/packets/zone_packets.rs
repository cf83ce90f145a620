//! Zone state messages.
use crate::codec::{WireEncode};
use crate::protocol::server::ServerMessagePayload;
use vstd::prelude::*;

verus! {

#[derive(Debug, PartialEq, Eq)]
pub struct SmsgInitWorldStates {
    pub map_id: u32,
    pub zone_id: u32,
    pub area_id: u32,
    /// 0 for now
    pub block_count: u16,
}

impl WireEncode for SmsgInitWorldStates {
    open spec fn spec_encode(&self) -> Seq<u8> {
        self.map_id.spec_encode() + self.zone_id.spec_encode() + self.area_id.spec_encode() + self.block_count.spec_encode()
    }

    fn encode_into(&self, out: &mut Vec<u8>) {
        self.map_id.encode_into(out);
        self.zone_id.encode_into(out);
        self.area_id.encode_into(out);
        self.block_count.encode_into(out);
        assert(out@ =~= old(out)@ + self.spec_encode());
    }
}

impl ServerMessagePayload for SmsgInitWorldStates {}

} // verus!
