//! The channel record store and its create/read/update/delete operations.
//!
//! A channel record is keyed by an externally assigned 64-bit identifier and
//! carries a name, the owning guild's identifier and name, a server-assigned
//! creation instant, the creating actor, and a `suppress` flag — the only
//! field an update may change. The store's behaviour is stated over a map
//! from identifier to record model, and the transition of each operation is
//! a spec function that the operation's contract ties to.

use vstd::prelude::*;

use crate::Message;
use crate::MessageModel;
use crate::error_handling::DbErrorInfo;
use crate::error_handling::internal_error;

verus! {

// ---------------------------------------------------------------------------
// Request payloads
// ---------------------------------------------------------------------------

/// The full payload of a create request. `suppress` may be omitted and then
/// defaults to `false`; `added_at` is never supplied by the caller.
pub struct Create {
    pub channel_id: i64,
    pub channel_name: String,
    pub guild_id: i64,
    pub guild_name: String,
    pub added_by: i64,
    pub suppress: Option<bool>,
}

/// The mathematical content of a `Create` payload.
pub struct CreateModel {
    pub channel_id: int,
    pub channel_name: Seq<char>,
    pub guild_id: int,
    pub guild_name: Seq<char>,
    pub added_by: int,
    pub suppress: Option<bool>,
}

impl View for Create {
    type V = CreateModel;

    open spec fn view(&self) -> CreateModel {
        CreateModel {
            channel_id: self.channel_id as int,
            channel_name: self.channel_name@,
            guild_id: self.guild_id as int,
            guild_name: self.guild_name@,
            added_by: self.added_by as int,
            suppress: self.suppress,
        }
    }
}

/// A partial record: each field is present or absent independently. A read
/// answers with one of these; an update supplies one, of which only
/// `suppress` is recognized as mutable.
#[derive(Debug)]
pub struct Data {
    pub channel_id: Option<i64>,
    pub channel_name: Option<String>,
    pub guild_id: Option<i64>,
    pub guild_name: Option<String>,
    pub suppress: Option<bool>,
}

/// The mathematical content of a `Data` value.
pub struct DataModel {
    pub channel_id: Option<int>,
    pub channel_name: Option<Seq<char>>,
    pub guild_id: Option<int>,
    pub guild_name: Option<Seq<char>>,
    pub suppress: Option<bool>,
}

impl View for Data {
    type V = DataModel;

    open spec fn view(&self) -> DataModel {
        DataModel {
            channel_id: match self.channel_id {
                Option::Some(x) => Option::Some(x as int),
                Option::None => Option::None,
            },
            channel_name: match self.channel_name {
                Option::Some(ref s) => Option::Some(s@),
                Option::None => Option::None,
            },
            guild_id: match self.guild_id {
                Option::Some(x) => Option::Some(x as int),
                Option::None => Option::None,
            },
            guild_name: match self.guild_name {
                Option::Some(ref s) => Option::Some(s@),
                Option::None => Option::None,
            },
            suppress: self.suppress,
        }
    }
}

// ---------------------------------------------------------------------------
// Stored records and their model
// ---------------------------------------------------------------------------

/// The model of one stored record. `added_at` and `added_by` are set at
/// creation and never change afterwards.
pub struct ChannelModel {
    pub channel_name: Seq<char>,
    pub guild_id: int,
    pub guild_name: Seq<char>,
    pub added_at: int,
    pub added_by: int,
    pub suppress: bool,
}

/// One stored row.
struct ChannelRow {
    channel_id: i64,
    channel_name: String,
    guild_id: i64,
    guild_name: String,
    added_at: i64,
    added_by: i64,
    suppress: bool,
}

spec fn row_model(r: ChannelRow) -> ChannelModel {
    ChannelModel {
        channel_name: r.channel_name@,
        guild_id: r.guild_id as int,
        guild_name: r.guild_name@,
        added_at: r.added_at as int,
        added_by: r.added_by as int,
        suppress: r.suppress,
    }
}

// ---------------------------------------------------------------------------
// Operation semantics, as transitions on the record map
// ---------------------------------------------------------------------------

/// The effective `suppress` value of a create payload: `false` when omitted.
pub open spec fn default_suppress(s: Option<bool>) -> bool {
    match s {
        Option::Some(b) => b,
        Option::None => false,
    }
}

/// The record a create payload stores, with the server-assigned instant.
pub open spec fn create_model(p: CreateModel, now: int) -> ChannelModel {
    ChannelModel {
        channel_name: p.channel_name,
        guild_id: p.guild_id,
        guild_name: p.guild_name,
        added_at: now,
        added_by: p.added_by,
        suppress: default_suppress(p.suppress),
    }
}

/// What a create does to the record map: a new record when the identifier is
/// free, no change at all when it is already taken.
pub open spec fn create_map(
    m: Map<int, ChannelModel>,
    p: CreateModel,
    now: int,
) -> Map<int, ChannelModel> {
    if m.contains_key(p.channel_id) {
        m
    } else {
        m.insert(p.channel_id, create_model(p, now))
    }
}

/// What a lookup by identifier yields.
pub open spec fn lookup(m: Map<int, ChannelModel>, id: int) -> Option<ChannelModel> {
    if m.contains_key(id) {
        Option::Some(m[id])
    } else {
        Option::None
    }
}

/// The merge of an update payload's `suppress` field into a stored record:
/// a supplied value overwrites unconditionally, an omitted one changes
/// nothing, and every other field keeps its stored value.
pub open spec fn merge_update(rec: ChannelModel, suppress: Option<bool>) -> ChannelModel {
    match suppress {
        Option::Some(b) => ChannelModel { suppress: b, ..rec },
        Option::None => rec,
    }
}

/// What an update does to the record map: a merge into the addressed record
/// when it exists, and a silent no-op when it does not.
pub open spec fn update_map(
    m: Map<int, ChannelModel>,
    id: int,
    suppress: Option<bool>,
) -> Map<int, ChannelModel> {
    match suppress {
        Option::Some(b) => if m.contains_key(id) {
            m.insert(id, merge_update(m[id], Option::Some(b)))
        } else {
            m
        },
        Option::None => m,
    }
}

/// What a delete does to the record map: the addressed record is gone,
/// whether or not it was there.
pub open spec fn delete_map(m: Map<int, ChannelModel>, id: int) -> Map<int, ChannelModel> {
    m.remove(id)
}

/// The partial record a successful read answers with: the mutable field set,
/// each field present, and the identification fields omitted.
pub open spec fn read_view(rec: ChannelModel) -> DataModel {
    DataModel {
        channel_id: Option::None,
        channel_name: Option::Some(rec.channel_name),
        guild_id: Option::Some(rec.guild_id),
        guild_name: Option::Some(rec.guild_name),
        suppress: Option::Some(rec.suppress),
    }
}

// ---------------------------------------------------------------------------
// Client-visible failure bodies
// ---------------------------------------------------------------------------

/// The database's message for a violated primary-key constraint.
pub open spec fn duplicate_key_text() -> Seq<char> {
    "duplicate key value violates unique constraint \"channels_pkey\""@
}

/// The SQLSTATE code for a uniqueness violation.
pub open spec fn unique_violation_code() -> Seq<char> {
    "23505"@
}

/// The error body of a rejected duplicate create.
pub open spec fn conflict_message() -> MessageModel {
    MessageModel {
        message: duplicate_key_text(),
        sqlstate: Option::Some(unique_violation_code()),
    }
}

// ---------------------------------------------------------------------------
// The store
// ---------------------------------------------------------------------------

/// The record store: all channel records, keyed by `channel_id`.
pub struct ChannelStore {
    rows: Vec<ChannelRow>,
}

spec fn unique_ids(rows: Seq<ChannelRow>) -> bool {
    forall|i: int, j: int|
        0 <= i < j < rows.len() ==> rows[i].channel_id != rows[j].channel_id
}

spec fn rows_map(rows: Seq<ChannelRow>) -> Map<int, ChannelModel>
    decreases rows.len(),
{
    if rows.len() == 0 {
        Map::empty()
    } else {
        rows_map(rows.drop_last()).insert(
            rows.last().channel_id as int,
            row_model(rows.last()),
        )
    }
}

impl ChannelStore {
    /// Well-formedness: no two rows share an identifier.
    pub closed spec fn wf(&self) -> bool {
        unique_ids(self.rows@)
    }

    /// An empty store.
    pub fn new() -> (s: ChannelStore)
        ensures
            s.wf(),
            s@ == Map::<int, ChannelModel>::empty(),
    {
        let s = ChannelStore { rows: Vec::new() };
        proof {
            assert(s.rows@.len() == 0);
            assert(rows_map(s.rows@) == Map::<int, ChannelModel>::empty());
        }
        s
    }
}

impl View for ChannelStore {
    type V = Map<int, ChannelModel>;

    closed spec fn view(&self) -> Map<int, ChannelModel> {
        rows_map(self.rows@)
    }
}

// ---------------------------------------------------------------------------
// Relating the row sequence to the record map
// ---------------------------------------------------------------------------

proof fn lemma_rows_map_contains(rows: Seq<ChannelRow>, id: int)
    ensures
        rows_map(rows).contains_key(id) <==> exists|j: int|
            0 <= j < rows.len() && #[trigger] rows[j].channel_id == id,
    decreases rows.len(),
{
    if rows.len() > 0 {
        let rest = rows.drop_last();
        lemma_rows_map_contains(rest, id);
        if rows.last().channel_id == id {
            assert(rows[rows.len() - 1].channel_id == id);
        } else {
            if exists|j: int| 0 <= j < rows.len() && #[trigger] rows[j].channel_id == id {
                let j = choose|j: int|
                    0 <= j < rows.len() && #[trigger] rows[j].channel_id == id;
                assert(rest[j] == rows[j]);
            }
            if exists|j: int| 0 <= j < rest.len() && #[trigger] rest[j].channel_id == id {
                let j = choose|j: int| 0 <= j < rest.len() && #[trigger] rest[j].channel_id == id;
                assert(rows[j].channel_id == id);
            }
        }
    }
}

proof fn lemma_unique_drop_last(rows: Seq<ChannelRow>)
    requires
        unique_ids(rows),
        rows.len() > 0,
    ensures
        unique_ids(rows.drop_last()),
        forall|j: int|
            0 <= j < rows.len() - 1 ==> #[trigger] rows.drop_last()[j].channel_id
                != rows.last().channel_id,
{
    let rest = rows.drop_last();
    assert forall|i: int, j: int| 0 <= i < j < rest.len() implies rest[i].channel_id
        != rest[j].channel_id by {
        assert(rest[i] == rows[i]);
        assert(rest[j] == rows[j]);
    }
    assert forall|j: int| 0 <= j < rows.len() - 1 implies #[trigger] rest[j].channel_id
        != rows.last().channel_id by {
        assert(rest[j] == rows[j]);
        assert(rows[j].channel_id != rows[rows.len() - 1].channel_id);
    }
}

proof fn lemma_rows_map_index(rows: Seq<ChannelRow>, i: int)
    requires
        unique_ids(rows),
        0 <= i < rows.len(),
    ensures
        rows_map(rows).contains_key(rows[i].channel_id as int),
        rows_map(rows)[rows[i].channel_id as int] == row_model(rows[i]),
    decreases rows.len(),
{
    if i == rows.len() - 1 {
        assert(rows.last() == rows[i]);
    } else {
        lemma_unique_drop_last(rows);
        let rest = rows.drop_last();
        assert(rest[i] == rows[i]);
        lemma_rows_map_index(rest, i);
        assert(rows[i].channel_id != rows.last().channel_id);
    }
}

proof fn lemma_rows_map_push(rows: Seq<ChannelRow>, r: ChannelRow)
    requires
        unique_ids(rows),
        forall|j: int| 0 <= j < rows.len() ==> #[trigger] rows[j].channel_id != r.channel_id,
    ensures
        unique_ids(rows.push(r)),
        rows_map(rows.push(r)) == rows_map(rows).insert(r.channel_id as int, row_model(r)),
{
    let grown = rows.push(r);
    assert forall|i: int, j: int| 0 <= i < j < grown.len() implies grown[i].channel_id
        != grown[j].channel_id by {
        if j < rows.len() {
            assert(grown[i] == rows[i]);
            assert(grown[j] == rows[j]);
        } else {
            assert(grown[i] == rows[i]);
            assert(grown[j] == r);
        }
    }
    assert(grown.drop_last() =~= rows);
    assert(grown.last() == r);
}

proof fn lemma_rows_map_remove(rows: Seq<ChannelRow>, i: int)
    requires
        unique_ids(rows),
        0 <= i < rows.len(),
    ensures
        unique_ids(rows.remove(i)),
        forall|j: int|
            0 <= j < rows.remove(i).len() ==> #[trigger] rows.remove(i)[j].channel_id
                != rows[i].channel_id,
        rows_map(rows.remove(i)) == rows_map(rows).remove(rows[i].channel_id as int),
    decreases rows.len(),
{
    let k = rows[i].channel_id as int;
    let shrunk = rows.remove(i);
    rows.remove_ensures(i);
    assert forall|a: int, b: int| 0 <= a < b < shrunk.len() implies shrunk[a].channel_id
        != shrunk[b].channel_id by {
        let a0: int = if a < i { a } else { a + 1 };
        let b0: int = if b < i { b } else { b + 1 };
        assert(shrunk[a] == rows[a0]);
        assert(shrunk[b] == rows[b0]);
    }
    assert forall|j: int| 0 <= j < shrunk.len() implies #[trigger] shrunk[j].channel_id
        != rows[i].channel_id by {
        let j0: int = if j < i { j } else { j + 1 };
        assert(shrunk[j] == rows[j0]);
    }
    lemma_unique_drop_last(rows);
    let rest = rows.drop_last();
    if i == rows.len() - 1 {
        assert(shrunk =~= rest);
        lemma_rows_map_contains(rest, k);
        assert(!rows_map(rest).contains_key(k));
        assert(rows_map(rest).insert(k, row_model(rows.last())).remove(k) =~= rows_map(rest));
    } else {
        assert(rest[i] == rows[i]);
        lemma_rows_map_remove(rest, i);
        assert(shrunk.len() > 0);
        assert(shrunk.last() == rows[rows.len() - 1]);
        assert(shrunk.drop_last() =~= rest.remove(i));
        let klast = rows.last().channel_id as int;
        let vlast = row_model(rows.last());
        assert(rows_map(shrunk) == rows_map(rest.remove(i)).insert(klast, vlast));
        assert(k != klast);
        assert(rows_map(rest).remove(k).insert(klast, vlast) =~= rows_map(rest).insert(
            klast,
            vlast,
        ).remove(k));
    }
}

// ---------------------------------------------------------------------------
// Laws of the operation semantics
// ---------------------------------------------------------------------------

/// Create uniqueness: once a create has stored a record, a second create
/// with the same identifier finds the key taken — so the operation rejects
/// it as a conflict — and changes no record at all: the first record is
/// still stored exactly as written.
pub proof fn lemma_create_uniqueness(
    m: Map<int, ChannelModel>,
    first: CreateModel,
    second: CreateModel,
    now1: int,
    now2: int,
)
    requires
        !m.contains_key(first.channel_id),
        second.channel_id == first.channel_id,
    ensures
        create_map(m, first, now1).contains_key(second.channel_id),
        create_map(create_map(m, first, now1), second, now2) == create_map(m, first, now1),
        lookup(create_map(create_map(m, first, now1), second, now2), first.channel_id) == Some(
            create_model(first, now1),
        ),
{
}

/// Read fidelity: a read immediately after a successful create yields
/// exactly the name, guild identifier, guild name and `suppress` supplied
/// at creation, with `suppress` defaulting to `false` when it was omitted.
pub proof fn lemma_read_fidelity(m: Map<int, ChannelModel>, p: CreateModel, now: int)
    requires
        !m.contains_key(p.channel_id),
    ensures
        lookup(create_map(m, p, now), p.channel_id) == Some(create_model(p, now)),
        forall|j: int| j != p.channel_id ==> lookup(create_map(m, p, now), j) == lookup(m, j),
        create_model(p, now).channel_name == p.channel_name,
        create_model(p, now).guild_id == p.guild_id,
        create_model(p, now).guild_name == p.guild_name,
        create_model(p, now).suppress == default_suppress(p.suppress),
        read_view(create_model(p, now)) == (DataModel {
            channel_id: None,
            channel_name: Some(p.channel_name),
            guild_id: Some(p.guild_id),
            guild_name: Some(p.guild_name),
            suppress: Some(default_suppress(p.suppress)),
        }),
{
}

/// Read of the missing: an identifier that no record carries yields no
/// record; the read operation then fails with a message naming exactly that
/// identifier (see `not_found_text`).
pub proof fn lemma_read_missing(m: Map<int, ChannelModel>, id: int)
    requires
        !m.contains_key(id),
    ensures
        lookup(m, id) is None,
        not_found_text(id) == "Could not find "@ + dec_str(id),
{
}

/// Update merge: an update that supplies `suppress` overwrites exactly that
/// field of the addressed record, keeps its name, guild identifier, guild
/// name, creation instant and creator unchanged, and touches no other
/// record; an update that supplies nothing changes nothing at all.
pub proof fn lemma_update_merge(m: Map<int, ChannelModel>, id: int, value: bool)
    requires
        m.contains_key(id),
    ensures
        lookup(update_map(m, id, Some(value)), id) matches Some(rec) && rec == (ChannelModel {
            suppress: value,
            ..m[id]
        }),
        forall|j: int| j != id ==> lookup(update_map(m, id, Some(value)), j) == lookup(m, j),
        update_map(m, id, None) == m,
{
}

/// Delete idempotence: after a delete the addressed record is gone, a
/// second delete changes nothing further, a delete of an identifier that
/// was never stored changes nothing at all, and no other record is touched.
pub proof fn lemma_delete_idempotent(m: Map<int, ChannelModel>, id: int)
    ensures
        lookup(delete_map(m, id), id) is None,
        delete_map(delete_map(m, id), id) == delete_map(m, id),
        !m.contains_key(id) ==> delete_map(m, id) == m,
        forall|j: int| j != id ==> lookup(delete_map(m, id), j) == lookup(m, j),
{
    assert(delete_map(delete_map(m, id), id) =~= delete_map(m, id));
    if !m.contains_key(id) {
        assert(delete_map(m, id) =~= m);
    }
}

// ---------------------------------------------------------------------------
// Decimal rendering of identifiers, for the lookup failure message
// ---------------------------------------------------------------------------

/// The character of one decimal digit.
pub open spec fn decimal_digit(d: int) -> char {
    if d == 0 {
        '0'
    } else if d == 1 {
        '1'
    } else if d == 2 {
        '2'
    } else if d == 3 {
        '3'
    } else if d == 4 {
        '4'
    } else if d == 5 {
        '5'
    } else if d == 6 {
        '6'
    } else if d == 7 {
        '7'
    } else if d == 8 {
        '8'
    } else {
        '9'
    }
}

/// The decimal digits of a non-negative value, most significant first.
pub open spec fn decimal_digits(n: int) -> Seq<char>
    decreases n,
{
    if n < 10 {
        seq![decimal_digit(n)]
    } else {
        decimal_digits(n / 10).push(decimal_digit(n % 10))
    }
}

/// The decimal rendering of a value, with a leading `-` when negative.
pub open spec fn dec_str(n: int) -> Seq<char> {
    if n < 0 {
        seq!['-'] + decimal_digits(-n)
    } else {
        decimal_digits(n)
    }
}

/// The text of a failed lookup's message, naming the requested identifier.
pub open spec fn not_found_text(id: int) -> Seq<char> {
    "Could not find "@ + dec_str(id)
}

/// The error body of a failed lookup.
pub open spec fn not_found_message(id: int) -> MessageModel {
    MessageModel { message: not_found_text(id), sqlstate: Option::None }
}

/// Relies on std's `Display` implementation for `i64`, through
/// `to_string`: the result is the value's decimal digits, with a leading
/// `-` for a negative value.
#[verifier::external_body]
fn i64_digits(x: i64) -> (r: String)
    ensures
        r@ == dec_str(x as int),
{
    x.to_string()
}

/// Relies on `String::push_str`: the slice's characters are appended to the
/// string.
#[verifier::external_body]
fn append_str(s: &mut String, t: &str)
    ensures
        final(s)@ == old(s)@ + t@,
{
    s.push_str(t);
}

/// The reply body of a failed lookup, naming the requested identifier.
pub fn not_found_reply(channel_id: i64) -> (m: Message)
    ensures
        m@ == not_found_message(channel_id as int),
{
    let mut text = "Could not find ".to_owned();
    let digits = i64_digits(channel_id);
    append_str(&mut text, digits.as_str());
    Message { message: text, sqlstate: None }
}

/// The effective `suppress` value of a create payload: the supplied value,
/// or `false` when it was omitted.
pub fn suppress_or_default(s: Option<bool>) -> (b: bool)
    ensures
        b == default_suppress(s),
{
    match s {
        Some(value) => value,
        None => false,
    }
}

// ---------------------------------------------------------------------------
// The operations
// ---------------------------------------------------------------------------

impl ChannelStore {
    /// The index of the row with the given identifier, if any.
    fn find_index(&self, channel_id: i64) -> (r: Option<usize>)
        requires
            self.wf(),
        ensures
            match r {
                Option::Some(i) => (i as int) < self.rows@.len() && self.rows@[i as int].channel_id
                    == channel_id,
                Option::None => forall|j: int|
                    0 <= j < self.rows@.len() ==> #[trigger] self.rows@[j].channel_id != channel_id,
            },
    {
        let mut i: usize = 0;
        while i < self.rows.len()
            invariant
                i <= self.rows@.len(),
                forall|j: int| 0 <= j < i ==> #[trigger] self.rows@[j].channel_id != channel_id,
            decreases self.rows@.len() - i,
        {
            if self.rows[i].channel_id == channel_id {
                return Some(i);
            }
            i = i + 1;
        }
        None
    }

    /// Create: stores the payload as a new record with the server-assigned
    /// instant `now` and `suppress` defaulted to `false` when omitted.
    /// Succeeds with status 201 exactly when no record with the same
    /// identifier exists; a duplicate identifier is rejected as a conflict
    /// carrying the constraint violation's message and SQLSTATE code, and
    /// alters nothing.
    pub fn add(&mut self, payload: Create, now: i64) -> (r: Result<u16, (u16, Message)>)
        requires
            old(self).wf(),
        ensures
            final(self).wf(),
            final(self)@ == create_map(old(self)@, payload@, now as int),
            !old(self)@.contains_key(payload.channel_id as int) ==> (r matches Ok(code) && code
                == 201),
            old(self)@.contains_key(payload.channel_id as int) ==> (r matches Err(e) && e.0 == 409
                && e.1@ == conflict_message()),
    {
        proof {
            lemma_rows_map_contains(self.rows@, payload.channel_id as int);
        }
        match self.find_index(payload.channel_id) {
            Some(i) => {
                proof {
                    assert(self.rows@[i as int].channel_id == payload.channel_id);
                }
                let info = DbErrorInfo {
                    message: "duplicate key value violates unique constraint \"channels_pkey\"".to_owned(),
                    code: "23505".to_owned(),
                };
                Err(internal_error(Some(info)))
            },
            None => {
                let suppress = suppress_or_default(payload.suppress);
                let row = ChannelRow {
                    channel_id: payload.channel_id,
                    channel_name: payload.channel_name,
                    guild_id: payload.guild_id,
                    guild_name: payload.guild_name,
                    added_at: now,
                    added_by: payload.added_by,
                    suppress,
                };
                proof {
                    lemma_rows_map_push(self.rows@, row);
                }
                self.rows.push(row);
                Ok(201)
            },
        }
    }

    /// Read: answers with the stored mutable field set — name, guild
    /// identifier and name, and `suppress`, each present — exactly when a
    /// record with the identifier exists; otherwise fails with status 404
    /// and a message naming the identifier.
    pub fn get(&self, channel_id: i64) -> (r: Result<Data, (u16, Message)>)
        requires
            self.wf(),
        ensures
            self@.contains_key(channel_id as int) ==> (r matches Ok(d) && d@ == read_view(
                self@[channel_id as int],
            )),
            !self@.contains_key(channel_id as int) ==> (r matches Err(e) && e.0 == 404 && e.1@
                == not_found_message(channel_id as int)),
    {
        proof {
            lemma_rows_map_contains(self.rows@, channel_id as int);
        }
        match self.find_index(channel_id) {
            Some(i) => {
                proof {
                    lemma_rows_map_index(self.rows@, i as int);
                }
                let row = &self.rows[i];
                Ok(
                    Data {
                        channel_id: None,
                        channel_name: Some(row.channel_name.clone()),
                        guild_id: Some(row.guild_id),
                        guild_name: Some(row.guild_name.clone()),
                        suppress: Some(row.suppress),
                    },
                )
            },
            None => Err((404, not_found_reply(channel_id))),
        }
    }

    /// Update: merges the payload into the addressed record — a supplied
    /// `suppress` overwrites the stored value, an omitted one leaves it, and
    /// no other field changes. Addressing a nonexistent identifier is a
    /// silent no-op, not a failure; the operation always succeeds with
    /// status 200.
    pub fn update(&mut self, channel_id: i64, payload: Data) -> (r: Result<u16, (u16, Message)>)
        requires
            old(self).wf(),
        ensures
            final(self).wf(),
            final(self)@ == update_map(old(self)@, channel_id as int, payload.suppress),
            r matches Ok(code) && code == 200,
    {
        proof {
            lemma_rows_map_contains(self.rows@, channel_id as int);
        }
        let suppress = match payload.suppress {
            Some(b) => b,
            None => {
                return Ok(200);
            },
        };
        match self.find_index(channel_id) {
            None => Ok(200),
            Some(i) => {
                proof {
                    lemma_rows_map_index(self.rows@, i as int);
                    lemma_rows_map_remove(self.rows@, i as int);
                }
                let ghost old_rows = self.rows@;
                let mut row = self.rows.remove(i);
                row.suppress = suppress;
                proof {
                    lemma_rows_map_push(self.rows@, row);
                }
                self.rows.push(row);
                proof {
                    let k = channel_id as int;
                    let m = rows_map(old_rows);
                    assert(row_model(row) == merge_update(m[k], Option::Some(suppress)));
                    assert(m.remove(k).insert(k, row_model(row)) =~= m.insert(
                        k,
                        row_model(row),
                    ));
                }
                Ok(200)
            },
        }
    }

    /// Delete: removes the addressed record if present; deleting a
    /// nonexistent identifier is not a failure. The operation always
    /// succeeds with status 200.
    pub fn delete(&mut self, channel_id: i64) -> (r: Result<u16, (u16, Message)>)
        requires
            old(self).wf(),
        ensures
            final(self).wf(),
            final(self)@ == delete_map(old(self)@, channel_id as int),
            r matches Ok(code) && code == 200,
    {
        proof {
            lemma_rows_map_contains(self.rows@, channel_id as int);
        }
        match self.find_index(channel_id) {
            None => {
                proof {
                    assert(self@.remove(channel_id as int) =~= self@);
                }
                Ok(200)
            },
            Some(i) => {
                proof {
                    lemma_rows_map_remove(self.rows@, i as int);
                }
                let _row = self.rows.remove(i);
                Ok(200)
            },
        }
    }
}

} // verus!
