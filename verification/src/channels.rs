//! An alternate route surface over the same record store.
//!
//! These entry points take the identifier as a typed path segment
//! (`ChannelID`) and their own payload shapes, and delegate to the canonical
//! operations of the `channel` module, with the same semantics.

use vstd::prelude::*;

use crate::Message;
use crate::channel::ChannelStore;
use crate::channel::Create;
use crate::channel::CreateModel;
use crate::channel::Data;
use crate::channel::DataModel;
use crate::channel::conflict_message;
use crate::channel::create_map;
use crate::channel::delete_map;
use crate::channel::not_found_message;
use crate::channel::read_view;
use crate::channel::update_map;

verus! {

/// The full payload of a create request on this surface.
pub struct AddChannel {
    pub channel_id: i64,
    pub channel_name: String,
    pub guild_id: i64,
    pub guild_name: String,
    pub added_by: i64,
    pub suppress: Option<bool>,
}

/// A partial record on this surface.
pub struct ChannelData {
    pub channel_id: Option<i64>,
    pub channel_name: Option<String>,
    pub guild_id: Option<i64>,
    pub guild_name: Option<String>,
    pub suppress: Option<bool>,
}

/// The identifier as extracted from the request path.
pub struct ChannelID {
    pub channel_id: i64,
}

impl View for AddChannel {
    type V = CreateModel;

    open spec fn view(&self) -> CreateModel {
        CreateModel {
            channel_id: self.channel_id as int,
            channel_name: self.channel_name@,
            guild_id: self.guild_id as int,
            guild_name: self.guild_name@,
            added_by: self.added_by as int,
            suppress: self.suppress,
        }
    }
}

impl View for ChannelData {
    type V = DataModel;

    open spec fn view(&self) -> DataModel {
        DataModel {
            channel_id: match self.channel_id {
                Option::Some(x) => Option::Some(x as int),
                Option::None => Option::None,
            },
            channel_name: match self.channel_name {
                Option::Some(ref s) => Option::Some(s@),
                Option::None => Option::None,
            },
            guild_id: match self.guild_id {
                Option::Some(x) => Option::Some(x as int),
                Option::None => Option::None,
            },
            guild_name: match self.guild_name {
                Option::Some(ref s) => Option::Some(s@),
                Option::None => Option::None,
            },
            suppress: self.suppress,
        }
    }
}

/// Create on this surface: stores the payload under the server-assigned
/// instant `now`, with the same acceptance and conflict rules as
/// `ChannelStore::add`.
pub fn add_channel(
    store: &mut ChannelStore,
    payload: AddChannel,
    now: i64,
) -> (r: Result<u16, (u16, Message)>)
    requires
        old(store).wf(),
    ensures
        final(store).wf(),
        final(store)@ == create_map(old(store)@, payload@, now as int),
        !old(store)@.contains_key(payload.channel_id as int) ==> (r matches Ok(code) && code
            == 201),
        old(store)@.contains_key(payload.channel_id as int) ==> (r matches Err(e) && e.0 == 409
            && e.1@ == conflict_message()),
{
    let create = Create {
        channel_id: payload.channel_id,
        channel_name: payload.channel_name,
        guild_id: payload.guild_id,
        guild_name: payload.guild_name,
        added_by: payload.added_by,
        suppress: payload.suppress,
    };
    store.add(create, now)
}

/// Read on this surface: the same contract as `ChannelStore::get` — the
/// stored mutable field set, each field present, exactly when a record with
/// the identifier exists; otherwise status 404 with a message naming the
/// identifier.
pub fn get_channel(store: &ChannelStore, id: ChannelID) -> (r: Result<Data, (u16, Message)>)
    requires
        store.wf(),
    ensures
        store@.contains_key(id.channel_id as int) ==> (r matches Ok(d) && d@ == read_view(
            store@[id.channel_id as int],
        )),
        !store@.contains_key(id.channel_id as int) ==> (r matches Err(e) && e.0 == 404 && e.1@
            == not_found_message(id.channel_id as int)),
{
    store.get(id.channel_id)
}

/// Update on this surface: the same merge as `ChannelStore::update` — a
/// supplied `suppress` overwrites, an omitted one keeps the stored value,
/// and a nonexistent identifier is a silent no-op.
pub fn update_channel(
    store: &mut ChannelStore,
    id: ChannelID,
    payload: ChannelData,
) -> (r: Result<u16, (u16, Message)>)
    requires
        old(store).wf(),
    ensures
        final(store).wf(),
        final(store)@ == update_map(old(store)@, id.channel_id as int, payload.suppress),
        r matches Ok(code) && code == 200,
{
    let data = crate::channel::Data {
        channel_id: payload.channel_id,
        channel_name: payload.channel_name,
        guild_id: payload.guild_id,
        guild_name: payload.guild_name,
        suppress: payload.suppress,
    };
    store.update(id.channel_id, data)
}

/// Delete on this surface: removes the record if present; deleting a
/// nonexistent identifier still succeeds.
pub fn delete_channel(store: &mut ChannelStore, id: ChannelID) -> (r: Result<u16, (u16, Message)>)
    requires
        old(store).wf(),
    ensures
        final(store).wf(),
        final(store)@ == delete_map(old(store)@, id.channel_id as int),
        r matches Ok(code) && code == 200,
{
    store.delete(id.channel_id)
}

} // verus!
