//! The feature store: a keyed value space plus a membership index of live ids.
use vstd::prelude::*;
use crate::json::{json_parse, parse};
use crate::message::{outcome_model, payload_model, read_payload, MessageError, Operation, OperationModel};
use crate::text::same_text;

verus! {

/// One primitive of the backing key/value store that the feature store issues.
#[derive(Clone, Debug)]
pub enum StoreCommand {
    /// Set the value stored under `key`.
    SetValue { key: String, value: String },
    /// Delete the value stored under `key`, if any.
    DeleteValue { key: String },
    /// Add `member` to the index set.
    AddMember { member: String },
    /// Remove `member` from the index set, if present.
    RemoveMember { member: String },
}

pub enum CommandModel {
    SetValue(Seq<char>, Seq<char>),
    DeleteValue(Seq<char>),
    AddMember(Seq<char>),
    RemoveMember(Seq<char>),
}

impl View for StoreCommand {
    type V = CommandModel;

    open spec fn view(&self) -> CommandModel {
        match self {
            StoreCommand::SetValue { key, value } => CommandModel::SetValue(key@, value@),
            StoreCommand::DeleteValue { key } => CommandModel::DeleteValue(key@),
            StoreCommand::AddMember { member } => CommandModel::AddMember(member@),
            StoreCommand::RemoveMember { member } => CommandModel::RemoveMember(member@),
        }
    }
}

/// A stored feature: its id and its payload text.
#[derive(Clone, Debug)]
pub struct Feature {
    pub id: String,
    pub payload: String,
}

/// The store's state: the `(id, payload)` values, and the index of ids.
pub struct FeatureModel {
    pub values: Seq<(Seq<char>, Seq<char>)>,
    pub index: Seq<Seq<char>>,
}

pub open spec fn has_key(vals: Seq<(Seq<char>, Seq<char>)>, k: Seq<char>) -> bool {
    exists|i: int| 0 <= i < vals.len() && (#[trigger] vals[i]).0 == k
}

pub open spec fn key_position(vals: Seq<(Seq<char>, Seq<char>)>, k: Seq<char>) -> int {
    choose|i: int| 0 <= i < vals.len() && (#[trigger] vals[i]).0 == k
}

/// The payload stored under `k`.
pub open spec fn value_of(vals: Seq<(Seq<char>, Seq<char>)>, k: Seq<char>) -> Option<Seq<char>> {
    if has_key(vals, k) {
        Some(vals[key_position(vals, k)].1)
    } else {
        None
    }
}

pub open spec fn unique_keys(vals: Seq<(Seq<char>, Seq<char>)>) -> bool {
    forall|i: int, j: int|
        0 <= i < vals.len() && 0 <= j < vals.len() && (#[trigger] vals[i]).0 == (#[trigger] vals[j]).0
            ==> i == j
}

pub open spec fn member_position(idx: Seq<Seq<char>>, k: Seq<char>) -> int {
    choose|i: int| 0 <= i < idx.len() && idx[i] == k
}

impl FeatureModel {
    /// Each id has at most one value and appears at most once in the index.
    pub open spec fn wf(self) -> bool {
        unique_keys(self.values) && self.index.no_duplicates()
    }

    /// An id has a value exactly when it is in the index.
    pub open spec fn consistent(self) -> bool {
        forall|k: Seq<char>| has_key(self.values, k) <==> self.index.contains(k)
    }

    /// The state after one backing-store command.
    pub open spec fn execute(self, c: CommandModel) -> FeatureModel {
        match c {
            CommandModel::SetValue(k, v) => FeatureModel {
                values: if has_key(self.values, k) {
                    self.values.update(key_position(self.values, k), (k, v))
                } else {
                    self.values.push((k, v))
                },
                index: self.index,
            },
            CommandModel::DeleteValue(k) => FeatureModel {
                values: if has_key(self.values, k) {
                    self.values.remove(key_position(self.values, k))
                } else {
                    self.values
                },
                index: self.index,
            },
            CommandModel::AddMember(k) => FeatureModel {
                values: self.values,
                index: if self.index.contains(k) {
                    self.index
                } else {
                    self.index.push(k)
                },
            },
            CommandModel::RemoveMember(k) => FeatureModel {
                values: self.values,
                index: if self.index.contains(k) {
                    self.index.remove(member_position(self.index, k))
                } else {
                    self.index
                },
            },
        }
    }

    /// Upsert: set the value, then add the id to the index.
    pub open spec fn put(self, id: Seq<char>, payload: Seq<char>) -> FeatureModel {
        self.execute(CommandModel::SetValue(id, payload)).execute(CommandModel::AddMember(id))
    }

    /// Delete: drop the value, then, unconditionally, the index membership.
    pub open spec fn remove(self, id: Seq<char>) -> FeatureModel {
        self.execute(CommandModel::DeleteValue(id)).execute(CommandModel::RemoveMember(id))
    }

    pub open spec fn apply(self, op: OperationModel) -> FeatureModel {
        match op {
            OperationModel::Put { id, payload } => self.put(id, payload),
            OperationModel::Remove { id } => self.remove(id),
        }
    }

    /// The records `(id, payload)` of the index members that hold a value, in
    /// index order.
    pub open spec fn listing(self) -> Seq<(Seq<char>, Seq<char>)> {
        listing_of(self.values, self.index)
    }
}

pub open spec fn listing_of(vals: Seq<(Seq<char>, Seq<char>)>, idx: Seq<Seq<char>>) -> Seq<
    (Seq<char>, Seq<char>),
>
    decreases idx.len(),
{
    if idx.len() == 0 {
        Seq::empty()
    } else {
        let rest = listing_of(vals, idx.drop_last());
        let k = idx.last();
        if has_key(vals, k) {
            rest.push((k, value_of(vals, k).unwrap()))
        } else {
            rest
        }
    }
}

/// How many records carry the id `k`.
pub open spec fn records_for(records: Seq<(Seq<char>, Seq<char>)>, k: Seq<char>) -> nat
    decreases records.len(),
{
    if records.len() == 0 {
        0
    } else {
        records_for(records.drop_last(), k) + if records.last().0 == k {
            1nat
        } else {
            0nat
        }
    }
}

/// The commands that store `payload` under `id`.
pub open spec fn put_commands(id: Seq<char>, payload: Seq<char>) -> Seq<CommandModel> {
    seq![CommandModel::SetValue(id, payload), CommandModel::AddMember(id)]
}

/// The commands that delete `id`.
pub open spec fn remove_commands(id: Seq<char>) -> Seq<CommandModel> {
    seq![CommandModel::DeleteValue(id), CommandModel::RemoveMember(id)]
}

/// The backing-store commands of an upsert.
pub fn add_key(id: &str, value: &str) -> (r: Vec<StoreCommand>)
    ensures
        r@.len() == 2,
        r@[0]@ == put_commands(id@, value@)[0],
        r@[1]@ == put_commands(id@, value@)[1],
{
    vec![
        StoreCommand::SetValue { key: id.to_string(), value: value.to_string() },
        StoreCommand::AddMember { member: id.to_string() },
    ]
}

/// The backing-store commands of a delete: the index removal comes whether or
/// not a value was stored.
pub fn delete_key(id: &str) -> (r: Vec<StoreCommand>)
    ensures
        r@.len() == 2,
        r@[0]@ == remove_commands(id@)[0],
        r@[1]@ == remove_commands(id@)[1],
{
    vec![
        StoreCommand::DeleteValue { key: id.to_string() },
        StoreCommand::RemoveMember { member: id.to_string() },
    ]
}

/// The commands that carry out one classified operation.
pub fn commands_for(op: &Operation) -> (r: Vec<StoreCommand>)
    ensures
        r@.len() == 2,
        op@ matches OperationModel::Put { id, payload } ==> r@[0]@ == put_commands(id, payload)[0]
            && r@[1]@ == put_commands(id, payload)[1],
        op@ matches OperationModel::Remove { id } ==> r@[0]@ == remove_commands(id)[0] && r@[1]@
            == remove_commands(id)[1],
{
    match op {
        Operation::Put { id, payload } => add_key(id.as_str(), payload.as_str()),
        Operation::Remove { id } => delete_key(id.as_str()),
    }
}


/// A feature store held in memory, with the same commands as the backing store.
pub struct FeatureStore {
    values: Vec<Feature>,
    index: Vec<String>,
}

pub open spec fn feature_pair(f: Feature) -> (Seq<char>, Seq<char>) {
    (f.id@, f.payload@)
}

pub open spec fn string_chars(s: String) -> Seq<char> {
    s@
}

impl View for FeatureStore {
    type V = FeatureModel;

    closed spec fn view(&self) -> FeatureModel {
        FeatureModel {
            values: self.values@.map_values(|f: Feature| feature_pair(f)),
            index: self.index@.map_values(|s: String| string_chars(s)),
        }
    }
}

impl FeatureStore {
    pub open spec fn wf(&self) -> bool {
        self@.wf()
    }

    /// An empty store.
    pub fn new() -> (r: FeatureStore)
        ensures
            r.wf(),
            r@.values.len() == 0,
            r@.index.len() == 0,
    {
        let r = FeatureStore { values: Vec::new(), index: Vec::new() };
        assert(r@.values =~= Seq::empty());
        assert(r@.index =~= Seq::empty());
        r
    }

    fn find_value(&self, k: &str) -> (r: Option<usize>)
        ensures
            r matches Some(i) ==> i < self@.values.len() && self@.values[i as int].0 == k@,
            r is None ==> !has_key(self@.values, k@),
    {
        let mut i: usize = 0;
        while i < self.values.len()
            invariant
                i <= self.values@.len(),
                forall|j: int| 0 <= j < i ==> (#[trigger] self@.values[j]).0 != k@,
            decreases self.values@.len() - i,
        {
            if same_text(self.values[i].id.as_str(), k) {
                return Some(i);
            }
            i = i + 1;
        }
        None
    }

    fn find_member(&self, k: &str) -> (r: Option<usize>)
        ensures
            r matches Some(i) ==> i < self@.index.len() && self@.index[i as int] == k@,
            r is None ==> !self@.index.contains(k@),
    {
        let mut i: usize = 0;
        while i < self.index.len()
            invariant
                i <= self.index@.len(),
                forall|j: int| 0 <= j < i ==> self@.index[j] != k@,
            decreases self.index@.len() - i,
        {
            if same_text(self.index[i].as_str(), k) {
                return Some(i);
            }
            i = i + 1;
        }
        None
    }

    /// Carries out one backing-store command.
    pub fn execute(&mut self, c: &StoreCommand)
        requires
            old(self).wf(),
        ensures
            final(self).wf(),
            final(self)@ == old(self)@.execute(c@),
    {
        let ghost m = self@;
        match c {
            StoreCommand::SetValue { key, value } => {
                let f = Feature { id: key.clone(), payload: value.clone() };
                match self.find_value(key.as_str()) {
                    Some(i) => {
                        assert(key_position(m.values, key@) == i);
                        self.values.set(i, f);
                        assert(self@.values =~= m.values.update(i as int, (key@, value@)));
                    },
                    None => {
                        self.values.push(f);
                        assert(self@.values =~= m.values.push((key@, value@)));
                    },
                }
                assert(self@.index =~= m.index);
            },
            StoreCommand::DeleteValue { key } => {
                match self.find_value(key.as_str()) {
                    Some(i) => {
                        assert(key_position(m.values, key@) == i);
                        self.values.remove(i);
                        assert(self@.values =~= m.values.remove(i as int));
                    },
                    None => {},
                }
                assert(self@.index =~= m.index);
            },
            StoreCommand::AddMember { member } => {
                match self.find_member(member.as_str()) {
                    Some(_) => {},
                    None => {
                        self.index.push(member.clone());
                        assert(self@.index =~= m.index.push(member@));
                    },
                }
                assert(self@.values =~= m.values);
            },
            StoreCommand::RemoveMember { member } => {
                match self.find_member(member.as_str()) {
                    Some(i) => {
                        assert(m.index.contains(member@));
                        assert(member_position(m.index, member@) == i);
                        self.index.remove(i);
                        assert(self@.index =~= m.index.remove(i as int));
                    },
                    None => {},
                }
                assert(self@.values =~= m.values);
            },
        }
    }

    /// Idempotent upsert of `payload` under `id`.
    pub fn put(&mut self, id: &str, payload: &str)
        requires
            old(self).wf(),
        ensures
            final(self).wf(),
            final(self)@ == old(self)@.put(id@, payload@),
    {
        let cmds = add_key(id, payload);
        self.execute(&cmds[0]);
        self.execute(&cmds[1]);
    }

    /// Idempotent delete of `id`; the index membership goes in every case.
    pub fn remove(&mut self, id: &str)
        requires
            old(self).wf(),
        ensures
            final(self).wf(),
            final(self)@ == old(self)@.remove(id@),
    {
        let cmds = delete_key(id);
        self.execute(&cmds[0]);
        self.execute(&cmds[1]);
    }

    /// Carries out a classified operation.
    pub fn apply(&mut self, op: &Operation)
        requires
            old(self).wf(),
        ensures
            final(self).wf(),
            final(self)@ == old(self)@.apply(op@),
    {
        match op {
            Operation::Put { id, payload } => self.put(id.as_str(), payload.as_str()),
            Operation::Remove { id } => self.remove(id.as_str()),
        }
    }

    /// Every listed record, in index order.
    pub fn list(&self) -> (r: Vec<Feature>)
        requires
            self.wf(),
        ensures
            r@.map_values(|f: Feature| feature_pair(f)) == self@.listing(),
    {
        let mut out: Vec<Feature> = Vec::new();
        let mut i: usize = 0;
        while i < self.index.len()
            invariant
                self.wf(),
                i <= self.index@.len(),
                out@.map_values(|f: Feature| feature_pair(f)) == listing_of(
                    self@.values,
                    self@.index.subrange(0, i as int),
                ),
            decreases self.index@.len() - i,
        {
            let ghost before = out@;
            let ghost idx = self@.index.subrange(0, i + 1);
            assert(idx.drop_last() =~= self@.index.subrange(0, i as int));
            match self.find_value(self.index[i].as_str()) {
                Some(j) => {
                    let k = self.index[i].as_str();
                    assert(key_position(self@.values, k@) == j);
                    out.push(Feature { id: self.index[i].clone(), payload: self.values[j].payload.clone() });
                    assert(out@.map_values(|f: Feature| feature_pair(f)) =~= before.map_values(
                        |f: Feature| feature_pair(f),
                    ).push((k@, self@.values[j as int].1)));
                },
                None => {},
            }
            i = i + 1;
        }
        assert(self@.index.subrange(0, self.index@.len() as int) =~= self@.index);
        out
    }
}

proof fn lemma_execute_wf(m: FeatureModel, c: CommandModel)
    requires
        m.wf(),
    ensures
        m.execute(c).wf(),
{
    match c {
        CommandModel::SetValue(k, v) => {
            if has_key(m.values, k) {
                let p = key_position(m.values, k);
                let n = m.values.update(p, (k, v));
                assert forall|i: int, j: int|
                    0 <= i < n.len() && 0 <= j < n.len() && (#[trigger] n[i]).0 == (#[trigger] n[j]).0
                    implies i == j by {
                    if i != p && j != p {
                        assert(m.values[i].0 == m.values[j].0);
                    } else if i == p && j != p {
                        assert(m.values[p].0 == m.values[j].0);
                    } else if j == p && i != p {
                        assert(m.values[p].0 == m.values[i].0);
                    }
                }
            }
        },
        CommandModel::DeleteValue(k) => {
            if has_key(m.values, k) {
                let p = key_position(m.values, k);
                let n = m.values.remove(p);
                assert forall|i: int, j: int|
                    0 <= i < n.len() && 0 <= j < n.len() && (#[trigger] n[i]).0 == (#[trigger] n[j]).0
                    implies i == j by {
                    let i0 = if i < p { i } else { i + 1 };
                    let j0 = if j < p { j } else { j + 1 };
                    assert(n[i] == m.values[i0]);
                    assert(n[j] == m.values[j0]);
                }
            }
        },
        CommandModel::AddMember(k) => {},
        CommandModel::RemoveMember(k) => {
            if m.index.contains(k) {
                let p = member_position(m.index, k);
                let n = m.index.remove(p);
                assert forall|i: int, j: int|
                    0 <= i < n.len() && 0 <= j < n.len() && i != j implies n[i] != n[j] by {
                    let i0 = if i < p { i } else { i + 1 };
                    let j0 = if j < p { j } else { j + 1 };
                    assert(n[i] == m.index[i0]);
                    assert(n[j] == m.index[j0]);
                }
            }
        },
    }
}

proof fn lemma_listing_records(vals: Seq<(Seq<char>, Seq<char>)>, idx: Seq<Seq<char>>, k: Seq<char>)
    requires
        idx.no_duplicates(),
    ensures
        records_for(listing_of(vals, idx), k) == (if idx.contains(k) && has_key(vals, k) {
            1nat
        } else {
            0nat
        }),
        forall|j: int|
            0 <= j < listing_of(vals, idx).len() && (#[trigger] listing_of(vals, idx)[j]).0 == k
                ==> listing_of(vals, idx)[j].1 == value_of(vals, k).unwrap(),
    decreases idx.len(),
{
    if idx.len() > 0 {
        let rest = idx.drop_last();
        let last = idx.last();
        assert(rest.no_duplicates());
        lemma_listing_records(vals, rest, k);
        let l = listing_of(vals, idx);
        let lr = listing_of(vals, rest);
        if last == k {
            assert(!rest.contains(k)) by {
                if rest.contains(k) {
                    let i = choose|i: int| 0 <= i < rest.len() && rest[i] == k;
                    assert(idx[i] == idx[idx.len() - 1]);
                }
            }
            assert(idx.contains(k)) by {
                assert(idx[idx.len() - 1] == k);
            }
        } else {
            assert(idx.contains(k) == rest.contains(k)) by {
                if idx.contains(k) {
                    let i = choose|i: int| 0 <= i < idx.len() && idx[i] == k;
                    assert(rest[i] == k);
                }
                if rest.contains(k) {
                    let i = choose|i: int| 0 <= i < rest.len() && rest[i] == k;
                    assert(idx[i] == k);
                }
            }
        }
        if has_key(vals, last) {
            assert(l.drop_last() =~= lr);
            assert(l.last() == (last, value_of(vals, last).unwrap()));
        }
    } else {
        assert(!idx.contains(k));
    }
}

proof fn lemma_put_state(m: FeatureModel, id: Seq<char>, payload: Seq<char>)
    requires
        m.wf(),
    ensures
        m.put(id, payload).wf(),
        value_of(m.put(id, payload).values, id) == Some(payload),
        m.put(id, payload).index.contains(id),
{
    let m1 = m.execute(CommandModel::SetValue(id, payload));
    lemma_execute_wf(m, CommandModel::SetValue(id, payload));
    lemma_execute_wf(m1, CommandModel::AddMember(id));
    let n = m1.values;
    if has_key(m.values, id) {
        let p = key_position(m.values, id);
        assert(n[p].0 == id);
    } else {
        assert(n[n.len() - 1].0 == id);
    }
    assert(has_key(n, id));
    let q = key_position(n, id);
    assert(n[q] == (id, payload));
    let idx = m.put(id, payload).index;
    if !m1.index.contains(id) {
        assert(idx[idx.len() - 1] == id);
    }
}

proof fn lemma_remove_state(m: FeatureModel, id: Seq<char>)
    requires
        m.wf(),
    ensures
        m.remove(id).wf(),
        !has_key(m.remove(id).values, id),
        !m.remove(id).index.contains(id),
{
    let m1 = m.execute(CommandModel::DeleteValue(id));
    lemma_execute_wf(m, CommandModel::DeleteValue(id));
    lemma_execute_wf(m1, CommandModel::RemoveMember(id));
    if has_key(m.values, id) {
        let p = key_position(m.values, id);
        let n = m1.values;
        assert(!has_key(n, id)) by {
            if has_key(n, id) {
                let i = choose|i: int| 0 <= i < n.len() && (#[trigger] n[i]).0 == id;
                let i0 = if i < p { i } else { i + 1 };
                assert(n[i] == m.values[i0]);
            }
        }
    }
    if m1.index.contains(id) {
        let p = member_position(m1.index, id);
        let n = m.remove(id).index;
        assert(!n.contains(id)) by {
            if n.contains(id) {
                let i = choose|i: int| 0 <= i < n.len() && n[i] == id;
                let i0 = if i < p { i } else { i + 1 };
                assert(n[i] == m1.index[i0]);
            }
        }
    }
}

/// After a Create or Edit of `id`, the listing holds exactly one record for
/// `id`, and its payload is the one just applied.
pub proof fn lemma_put_listed_once(m: FeatureModel, id: Seq<char>, payload: Seq<char>)
    requires
        m.wf(),
    ensures
        records_for(m.put(id, payload).listing(), id) == 1,
        forall|j: int|
            0 <= j < m.put(id, payload).listing().len() && (#[trigger] m.put(id, payload).listing()[j]).0
                == id ==> m.put(id, payload).listing()[j].1 == payload,
{
    lemma_put_state(m, id, payload);
    let n = m.put(id, payload);
    lemma_listing_records(n.values, n.index, id);
}

/// After a Delete of `id` the listing holds no record for it, and a second
/// Delete of the same id changes nothing.
pub proof fn lemma_remove_unlisted_and_idempotent(m: FeatureModel, id: Seq<char>)
    requires
        m.wf(),
    ensures
        records_for(m.remove(id).listing(), id) == 0,
        m.remove(id).remove(id) == m.remove(id),
{
    lemma_remove_state(m, id);
    let n = m.remove(id);
    lemma_listing_records(n.values, n.index, id);
    assert(n.execute(CommandModel::DeleteValue(id)) == n);
    assert(n.execute(CommandModel::DeleteValue(id)).execute(CommandModel::RemoveMember(id)) == n);
}

/// Applying the same Create or Edit twice leaves the store as applying it once.
pub proof fn lemma_put_idempotent(m: FeatureModel, id: Seq<char>, payload: Seq<char>)
    requires
        m.wf(),
    ensures
        m.put(id, payload).put(id, payload) == m.put(id, payload),
{
    lemma_put_state(m, id, payload);
    let n = m.put(id, payload);
    let q = key_position(n.values, id);
    assert(n.values[q] == (id, payload));
    assert(n.values.update(q, (id, payload)) =~= n.values);
    assert(n.execute(CommandModel::SetValue(id, payload)) == n);
    assert(n.execute(CommandModel::SetValue(id, payload)).execute(CommandModel::AddMember(id)) == n);
}

/// Processing a raw payload that classifies as a Create or Edit of `id` leaves
/// exactly one listed record for `id`, carrying that message's payload.
pub proof fn lemma_processed_upsert_listed_once(m: FeatureModel, text: Seq<char>)
    requires
        m.wf(),
        payload_model(text) is Ok,
        payload_model(text)->Ok_0 is Put,
    ensures
        ({
            let op = payload_model(text)->Ok_0;
            let n = m.apply(op);
            &&& records_for(n.listing(), op->Put_id) == 1
            &&& forall|j: int|
                0 <= j < n.listing().len() && (#[trigger] n.listing()[j]).0 == op->Put_id
                    ==> n.listing()[j].1 == op->Put_payload
        }),
{
    let op = payload_model(text)->Ok_0;
    lemma_put_listed_once(m, op->Put_id, op->Put_payload);
}

/// Applying the same operation twice leaves the store as applying it once.
pub proof fn lemma_apply_idempotent(m: FeatureModel, op: OperationModel)
    requires
        m.wf(),
    ensures
        m.apply(op).apply(op) == m.apply(op),
{
    match op {
        OperationModel::Put { id, payload } => lemma_put_idempotent(m, id, payload),
        OperationModel::Remove { id } => lemma_remove_unlisted_and_idempotent(m, id),
    }
}

/// The documents of the fetched payload texts that are present and parse,
/// in order; the others are skipped.
pub open spec fn parsed_payloads(fetched: Seq<Option<String>>) -> Seq<serde_json::Value>
    decreases fetched.len(),
{
    if fetched.len() == 0 {
        Seq::empty()
    } else {
        let rest = parsed_payloads(fetched.drop_last());
        match fetched.last() {
            Some(text) => match json_parse(text@) {
                Some(v) => rest.push(v),
                None => rest,
            },
            None => rest,
        }
    }
}

/// Builds the feature listing from the payload texts fetched for the index
/// members (`None` where a member had no value): a record that is missing or
/// does not parse is skipped, and the rest are returned.
pub fn get_all_features(fetched: &Vec<Option<String>>) -> (r: Vec<serde_json::Value>)
    ensures
        r@ == parsed_payloads(fetched@),
{
    let mut out: Vec<serde_json::Value> = Vec::new();
    let mut i: usize = 0;
    while i < fetched.len()
        invariant
            i <= fetched@.len(),
            out@ == parsed_payloads(fetched@.subrange(0, i as int)),
        decreases fetched@.len() - i,
    {
        assert(fetched@.subrange(0, i + 1).drop_last() =~= fetched@.subrange(0, i as int));
        match &fetched[i] {
            Some(text) => match parse(text.as_str()) {
                Some(v) => out.push(v),
                None => {},
            },
            None => {},
        }
        i = i + 1;
    }
    assert(fetched@.subrange(0, fetched@.len() as int) =~= fetched@);
    out
}

impl FeatureStore {
    /// Classifies a raw bus payload and applies it; a payload that is dropped
    /// leaves the store as it was.
    pub fn process(&mut self, payload: &str) -> (r: Result<(), MessageError>)
        requires
            old(self).wf(),
        ensures
            final(self).wf(),
            match payload_model(payload@) {
                Ok(op) => r is Ok && final(self)@ == old(self)@.apply(op),
                Err(e) => r == Err::<(), MessageError>(e) && final(self)@ == old(self)@,
            },
    {
        match read_payload(payload) {
            Ok(op) => {
                self.apply(&op);
                Ok(())
            },
            Err(e) => Err(e),
        }
    }
}

} // verus!
