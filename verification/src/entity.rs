//! Entity records: what the registry stores under each numeric identifier.

use vstd::prelude::*;

verus! {

/// The kind of an entity. The set is closed.
#[derive(Clone, Copy, Debug, PartialEq, Eq, Structural)]
pub enum OASISEntityType {
    Avatar,
    Holon,
    AvatarDetail,
}

/// One record of the registry.
///
/// `guid_id` correlates the record with the outside world and need not be
/// unique; `info_json` is a serialized blob that the registry never reads.
#[derive(Debug)]
pub struct OASISEntity {
    pub numeric_id: u64,
    pub guid_id: String,
    pub info_json: String,
    pub entity_type: OASISEntityType,
}

/// What an [`OASISEntity`] says, with its strings as sequences of characters.
pub ghost struct EntityView {
    pub numeric_id: u64,
    pub guid_id: Seq<char>,
    pub info_json: Seq<char>,
    pub entity_type: OASISEntityType,
}

impl View for OASISEntity {
    type V = EntityView;

    open spec fn view(&self) -> EntityView {
        EntityView {
            numeric_id: self.numeric_id,
            guid_id: self.guid_id@,
            info_json: self.info_json@,
            entity_type: self.entity_type,
        }
    }
}

impl Clone for OASISEntity {
    fn clone(&self) -> (copy: Self)
        ensures
            copy == *self,
    {
        OASISEntity {
            numeric_id: self.numeric_id,
            guid_id: self.guid_id.clone(),
            info_json: self.info_json.clone(),
            entity_type: self.entity_type,
        }
    }
}

} // verus!
