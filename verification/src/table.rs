//! The endpoint index table: which endpoint id stands at each index.
//!
//! The first [`FIXED_ENDPOINT_COUNT`] indices belong to the endpoints that
//! exist for the whole life of the process. The indices after them are the
//! dynamic slots; a slot that holds [`chip_kInvalidEndpointId`] is free.

use vstd::prelude::*;
use crate::error::{
    EmberAfError, EmberAfStatus, EmberAfStatus_EMBER_ZCL_STATUS_DUPLICATE_EXISTS,
    EmberAfStatus_EMBER_ZCL_STATUS_RESOURCE_EXHAUSTED, EmberAfStatus_EMBER_ZCL_STATUS_SUCCESS,
};

verus! {

/// Number of endpoints that exist from the start: root, bridge and template.
pub const FIXED_ENDPOINT_COUNT: u16 = 3;

/// The first endpoint id that no fixed endpoint uses.
pub const ENDPOINT_ID_RANGE_START: u16 = FIXED_ENDPOINT_COUNT;

/// Number of dynamic slots of the smallest configuration.
pub const ENDPOINT_COUNT: usize = 4;

/// The id that marks a free slot; no endpoint has it.
#[allow(non_upper_case_globals)]
pub const chip_kInvalidEndpointId: u16 = 0xFFFF;

/// The table's invariant, on the sequence of ids by index: every index fits
/// in 16 bits, no fixed index is free, and no id but the free mark stands at
/// two indices.
pub open spec fn valid_slots(s: Seq<u16>) -> bool {
    &&& FIXED_ENDPOINT_COUNT <= s.len() <= 0xFFFF
    &&& forall|i: int| 0 <= i < FIXED_ENDPOINT_COUNT ==> #[trigger] s[i] != chip_kInvalidEndpointId
    &&& forall|i: int, j: int|
        0 <= i < j < s.len() && #[trigger] s[i] == #[trigger] s[j] ==> s[i]
            == chip_kInvalidEndpointId
}

/// `i` is the lowest index at which `id` stands.
pub open spec fn is_first_index(s: Seq<u16>, id: u16, i: int) -> bool {
    &&& 0 <= i < s.len()
    &&& s[i] == id
    &&& forall|j: int| 0 <= j < i ==> #[trigger] s[j] != id
}

/// The lowest index at which `id` stands, where it stands at any.
pub open spec fn first_index(s: Seq<u16>, id: u16) -> int {
    choose|i: int| is_first_index(s, id, i)
}

/// What a scan for `id` finds: the lowest index that holds it, if any.
pub open spec fn slot_of(s: Seq<u16>, id: u16) -> Option<int> {
    if s.contains(id) {
        Some(first_index(s, id))
    } else {
        None
    }
}

/// No dynamic slot is free.
pub open spec fn is_full(s: Seq<u16>) -> bool {
    !s.contains(chip_kInvalidEndpointId)
}

/// The table before any dynamic endpoint is registered: the fixed endpoints
/// `0`, `1` and `2`, then `dynamic_count` free slots.
pub open spec fn initial_slots(dynamic_count: nat) -> Seq<u16> {
    Seq::new(
        FIXED_ENDPOINT_COUNT as nat + dynamic_count,
        |i: int|
            if i < FIXED_ENDPOINT_COUNT {
                i as u16
            } else {
                chip_kInvalidEndpointId
            },
    )
}

/// The dynamic slot in which `id` stands, counted from the first dynamic
/// index.
pub open spec fn dynamic_slot(s: Seq<u16>, id: u16) -> u16 {
    (first_index(s, id) - FIXED_ENDPOINT_COUNT) as u16
}

/// What is asked of the runtime to register `id`: the dynamic slot to set,
/// counted from the first dynamic index. An id that the table holds already
/// is refused as a duplicate, whether a fixed or a dynamic endpoint has it;
/// otherwise a table without a free slot is exhausted; otherwise the lowest
/// free slot is taken.
pub open spec fn request_for(s: Seq<u16>, id: u16) -> Result<u16, EmberAfError> {
    if s.contains(id) {
        Err(EmberAfError(EmberAfStatus_EMBER_ZCL_STATUS_DUPLICATE_EXISTS))
    } else if is_full(s) {
        Err(EmberAfError(EmberAfStatus_EMBER_ZCL_STATUS_RESOURCE_EXHAUSTED))
    } else {
        Ok(dynamic_slot(s, chip_kInvalidEndpointId))
    }
}

/// A registration of `id` to which the runtime, where it is asked, answers
/// `status`: the dynamic slot that now holds `id` or the error, and the
/// table afterwards. The table changes only where the runtime was asked and
/// reported success: then `id` stands in the slot that was asked for.
pub open spec fn registered(s: Seq<u16>, id: u16, status: EmberAfStatus) -> (
    Result<u16, EmberAfError>,
    Seq<u16>,
) {
    match request_for(s, id) {
        Err(e) => (Err(e), s),
        Ok(slot) => if status == EmberAfStatus_EMBER_ZCL_STATUS_SUCCESS {
            (Ok(slot), s.update(first_index(s, chip_kInvalidEndpointId), id))
        } else {
            (Err(EmberAfError(status)), s)
        },
    }
}

/// One change of the table: a registration with the runtime's answer, or the
/// release of an id.
pub enum TableOp {
    Register { id: u16, status: EmberAfStatus },
    Release { id: u16 },
}

/// The table after one change. Releasing an id that stands in no dynamic
/// slot changes nothing.
pub open spec fn after(s: Seq<u16>, op: TableOp) -> Seq<u16> {
    match op {
        TableOp::Register { id, status } => registered(s, id, status).1,
        TableOp::Release { id } => if is_registered(s, id) {
            released(s, id)
        } else {
            s
        },
    }
}

/// The table after the changes `ops`, made in order.
pub open spec fn after_all(s: Seq<u16>, ops: Seq<TableOp>) -> Seq<u16>
    decreases ops.len(),
{
    if ops.len() == 0 {
        s
    } else {
        after(after_all(s, ops.drop_last()), ops.last())
    }
}

/// `id` stands in a dynamic slot.
pub open spec fn is_registered(s: Seq<u16>, id: u16) -> bool {
    s.contains(id) && first_index(s, id) >= FIXED_ENDPOINT_COUNT
}

/// The table after the slot of `id` was freed: the lowest index that holds
/// `id` is free, every other index is as before.
pub open spec fn released(s: Seq<u16>, id: u16) -> Seq<u16> {
    s.update(first_index(s, id), chip_kInvalidEndpointId)
}

/// Among the indices below `bound` that hold `id` there is a lowest one.
proof fn lemma_lowest_below(s: Seq<u16>, id: u16, bound: int) -> (i: int)
    requires
        0 <= bound < s.len(),
        s[bound] == id,
    ensures
        is_first_index(s, id, i),
        i <= bound,
    decreases bound,
{
    if exists|j: int| 0 <= j < bound && s[j] == id {
        let j = choose|j: int| 0 <= j < bound && s[j] == id;
        lemma_lowest_below(s, id, j)
    } else {
        bound
    }
}

/// An id that stands in the table has a lowest index.
pub proof fn lemma_first_index_exists(s: Seq<u16>, id: u16)
    requires
        s.contains(id),
    ensures
        is_first_index(s, id, first_index(s, id)),
{
    let k = choose|k: int| 0 <= k < s.len() && s[k] == id;
    let i = lemma_lowest_below(s, id, k);
    assert(is_first_index(s, id, i));
}

/// The lowest index of an id is the only index with that property.
pub proof fn lemma_first_index_unique(s: Seq<u16>, id: u16, i: int)
    requires
        is_first_index(s, id, i),
    ensures
        s.contains(id),
        first_index(s, id) == i,
        slot_of(s, id) == Some(i),
{
    assert(s[i] == id);
    lemma_first_index_exists(s, id);
    let f = first_index(s, id);
    if f < i {
        assert(s[f] != id);
    } else if i < f {
        assert(s[i] != id);
    }
}

/// In a valid table an endpoint id stands at one index at most, so every
/// index that holds it is its lowest.
pub proof fn lemma_endpoint_index_unique(s: Seq<u16>, id: u16, i: int)
    requires
        valid_slots(s),
        id != chip_kInvalidEndpointId,
        0 <= i < s.len(),
        s[i] == id,
    ensures
        is_first_index(s, id, i),
        first_index(s, id) == i,
{
    assert forall|j: int| 0 <= j < i implies #[trigger] s[j] != id by {
        if s[j] == id {
            assert(s[j] == s[i]);
        }
    }
    lemma_first_index_unique(s, id, i);
}

/// A free slot of a valid table is a dynamic slot.
pub proof fn lemma_free_slot_is_dynamic(s: Seq<u16>)
    requires
        valid_slots(s),
        s.contains(chip_kInvalidEndpointId),
    ensures
        FIXED_ENDPOINT_COUNT <= first_index(s, chip_kInvalidEndpointId) < s.len(),
{
    lemma_first_index_exists(s, chip_kInvalidEndpointId);
    let f = first_index(s, chip_kInvalidEndpointId);
    if f < FIXED_ENDPOINT_COUNT {
        assert(s[f] != chip_kInvalidEndpointId);
    }
}

/// Writing an id that the table does not hold yet into a free dynamic slot
/// keeps the table valid.
pub proof fn lemma_occupy_keeps_valid(s: Seq<u16>, index: int, id: u16)
    requires
        valid_slots(s),
        FIXED_ENDPOINT_COUNT <= index < s.len(),
        s[index] == chip_kInvalidEndpointId,
        !s.contains(id),
    ensures
        valid_slots(s.update(index, id)),
{
    let t = s.update(index, id);
    assert forall|i: int| 0 <= i < FIXED_ENDPOINT_COUNT implies #[trigger] t[i]
        != chip_kInvalidEndpointId by {
        assert(t[i] == s[i]);
    }
    assert forall|i: int, j: int|
        0 <= i < j < t.len() && #[trigger] t[i] == #[trigger] t[j] implies t[i]
        == chip_kInvalidEndpointId by {
        if i == index {
            assert(t[j] == s[j]);
            assert(s.contains(s[j]));
        } else if j == index {
            assert(t[i] == s[i]);
            assert(s.contains(s[i]));
        } else {
            assert(t[i] == s[i] && t[j] == s[j]);
        }
    }
}

/// Freeing a dynamic slot keeps the table valid.
pub proof fn lemma_vacate_keeps_valid(s: Seq<u16>, index: int)
    requires
        valid_slots(s),
        FIXED_ENDPOINT_COUNT <= index < s.len(),
    ensures
        valid_slots(s.update(index, chip_kInvalidEndpointId)),
{
    let t = s.update(index, chip_kInvalidEndpointId);
    assert forall|i: int| 0 <= i < FIXED_ENDPOINT_COUNT implies #[trigger] t[i]
        != chip_kInvalidEndpointId by {
        assert(t[i] == s[i]);
    }
    assert forall|i: int, j: int|
        0 <= i < j < t.len() && #[trigger] t[i] == #[trigger] t[j] implies t[i]
        == chip_kInvalidEndpointId by {
        if i != index && j != index {
            assert(t[i] == s[i] && t[j] == s[j]);
        }
    }
}

/// The endpoint ids by index, as the runtime reports them.
pub struct EndpointTable {
    slots: Vec<u16>,
}

impl View for EndpointTable {
    type V = Seq<u16>;

    closed spec fn view(&self) -> Seq<u16> {
        self.slots@
    }
}

impl EndpointTable {
    /// The invariant that every table of this library meets.
    pub open spec fn wf(&self) -> bool {
        valid_slots(self@)
    }

    /// The table before any registration, with `dynamic_count` free slots.
    /// `None` where the indices would not fit in 16 bits.
    pub fn new(dynamic_count: u16) -> (r: Option<Self>)
        ensures
            r is Some <==> FIXED_ENDPOINT_COUNT + dynamic_count <= 0xFFFF,
            r matches Some(table) ==> table.wf() && table@ == initial_slots(dynamic_count as nat),
    {
        if dynamic_count > 0xFFFF - FIXED_ENDPOINT_COUNT {
            return None;
        }
        let mut slots: Vec<u16> = Vec::new();
        let mut fixed: u16 = 0;
        while fixed < FIXED_ENDPOINT_COUNT
            invariant
                fixed <= FIXED_ENDPOINT_COUNT,
                slots@.len() == fixed,
                forall|i: int| 0 <= i < fixed ==> #[trigger] slots@[i] == i,
            decreases FIXED_ENDPOINT_COUNT - fixed,
        {
            slots.push(fixed);
            fixed += 1;
        }
        let mut free: u16 = 0;
        while free < dynamic_count
            invariant
                free <= dynamic_count,
                slots@.len() == FIXED_ENDPOINT_COUNT + free,
                forall|i: int| 0 <= i < FIXED_ENDPOINT_COUNT ==> #[trigger] slots@[i] == i,
                forall|i: int|
                    FIXED_ENDPOINT_COUNT <= i < FIXED_ENDPOINT_COUNT + free ==> #[trigger] slots@[i]
                        == chip_kInvalidEndpointId,
            decreases dynamic_count - free,
        {
            slots.push(chip_kInvalidEndpointId);
            free += 1;
        }
        assert(slots@ =~= initial_slots(dynamic_count as nat));
        Some(EndpointTable { slots })
    }

    /// The table that holds `slots`, the ids that the runtime reports index
    /// by index. `None` where they break the table's invariant.
    pub fn from_slots(slots: Vec<u16>) -> (r: Option<Self>)
        ensures
            r is Some <==> valid_slots(slots@),
            r matches Some(table) ==> table.wf() && table@ == slots@,
    {
        let n = slots.len();
        if n < FIXED_ENDPOINT_COUNT as usize || n > 0xFFFF {
            return None;
        }
        let mut i: usize = 0;
        while i < n
            invariant
                n == slots@.len(),
                FIXED_ENDPOINT_COUNT <= n <= 0xFFFF,
                i <= n,
                forall|a: int|
                    0 <= a < i && a < FIXED_ENDPOINT_COUNT ==> #[trigger] slots@[a]
                        != chip_kInvalidEndpointId,
                forall|a: int, b: int|
                    0 <= a < i && a < b < n && #[trigger] slots@[a] == #[trigger] slots@[b]
                        ==> slots@[a] == chip_kInvalidEndpointId,
            decreases n - i,
        {
            let id = slots[i];
            if id == chip_kInvalidEndpointId {
                if i < FIXED_ENDPOINT_COUNT as usize {
                    return None;
                }
            } else {
                let mut j: usize = i + 1;
                while j < n
                    invariant
                        n == slots@.len(),
                        i < j <= n,
                        id == slots@[i as int],
                        id != chip_kInvalidEndpointId,
                        forall|b: int| i < b < j ==> #[trigger] slots@[b] != id,
                    decreases n - j,
                {
                    if slots[j] == id {
                        return None;
                    }
                    j += 1;
                }
            }
            i += 1;
        }
        Some(EndpointTable { slots })
    }

    /// Number of indices, fixed and dynamic.
    pub fn len(&self) -> (r: usize)
        ensures
            r == self@.len(),
    {
        self.slots.len()
    }

    /// The endpoint id at `index`; `None` past the end of the table.
    pub fn endpoint_from_index(&self, index: u16) -> (r: Option<u16>)
        ensures
            r == if index < self@.len() {
                Some(self@[index as int])
            } else {
                None
            },
    {
        if (index as usize) < self.slots.len() {
            Some(self.slots[index as usize])
        } else {
            None
        }
    }

    /// The lowest index at which `id` stands: a scan over all indices, fixed
    /// and dynamic. `None` where no index holds `id`.
    pub fn find_index(&self, id: u16) -> (r: Option<u16>)
        requires
            self.wf(),
        ensures
            match r {
                Some(i) => is_first_index(self@, id, i as int),
                None => !self@.contains(id),
            },
            slot_of(self@, id) == match r {
                Some(i) => Some(i as int),
                None => None,
            },
    {
        let n = self.slots.len();
        let mut index: usize = 0;
        while index < n
            invariant
                n == self.slots@.len(),
                n <= 0xFFFF,
                index <= n,
                forall|j: int| 0 <= j < index ==> #[trigger] self.slots@[j] != id,
            decreases n - index,
        {
            if self.slots[index] == id {
                proof {
                    lemma_first_index_unique(self@, id, index as int);
                }
                return Some(index as u16);
            }
            index += 1;
        }
        None
    }

    /// Decides what to ask of the runtime to register `id`: the dynamic slot
    /// to set, or the error that ends the registration at once.
    pub fn request(&self, id: u16) -> (r: Result<u16, EmberAfError>)
        requires
            self.wf(),
        ensures
            r == request_for(self@, id),
    {
        if self.find_index(id).is_some() {
            Err(EmberAfError::from(EmberAfStatus_EMBER_ZCL_STATUS_DUPLICATE_EXISTS))
        } else if let Some(index) = self.find_index(chip_kInvalidEndpointId) {
            proof {
                lemma_free_slot_is_dynamic(self@);
            }
            Ok(index - FIXED_ENDPOINT_COUNT)
        } else {
            Err(EmberAfError::from(EmberAfStatus_EMBER_ZCL_STATUS_RESOURCE_EXHAUSTED))
        }
    }

    /// Registers `id`, given the status with which the runtime answers the
    /// request of [`EndpointTable::request`]; `status` is not read where
    /// that request is an error.
    pub fn settle(&mut self, id: u16, status: EmberAfStatus) -> (r: Result<u16, EmberAfError>)
        requires
            old(self).wf(),
        ensures
            final(self).wf(),
            (r, final(self)@) == registered(old(self)@, id, status),
    {
        match self.request(id) {
            Err(e) => Err(e),
            Ok(slot) => {
                if status == EmberAfStatus_EMBER_ZCL_STATUS_SUCCESS {
                    proof {
                        lemma_free_slot_is_dynamic(self@);
                        lemma_first_index_exists(self@, chip_kInvalidEndpointId);
                    }
                    self.occupy(slot + FIXED_ENDPOINT_COUNT, id);
                    Ok(slot)
                } else {
                    Err(EmberAfError::from(status))
                }
            },
        }
    }

    /// Frees the slot of `id` and returns it, counted from the first dynamic
    /// index. `None`, and no change, where `id` stands in no dynamic slot.
    pub fn release(&mut self, id: u16) -> (r: Option<u16>)
        requires
            old(self).wf(),
        ensures
            final(self).wf(),
            is_registered(old(self)@, id) ==> r == Some(dynamic_slot(old(self)@, id))
                && final(self)@ == released(old(self)@, id),
            !is_registered(old(self)@, id) ==> r is None && final(self)@ == old(self)@,
    {
        match self.find_index(id) {
            Some(index) => {
                proof {
                    lemma_first_index_unique(self@, id, index as int);
                }
                if index >= FIXED_ENDPOINT_COUNT {
                    self.vacate(index);
                    Some(index - FIXED_ENDPOINT_COUNT)
                } else {
                    None
                }
            },
            None => None,
        }
    }

    /// Writes `id` into the slot at `index`.
    pub(crate) fn occupy(&mut self, index: u16, id: u16)
        requires
            old(self).wf(),
            FIXED_ENDPOINT_COUNT <= index < old(self)@.len(),
            old(self)@[index as int] == chip_kInvalidEndpointId,
            !old(self)@.contains(id),
        ensures
            final(self).wf(),
            final(self)@ == old(self)@.update(index as int, id),
    {
        proof {
            lemma_occupy_keeps_valid(self@, index as int, id);
        }
        self.slots.set(index as usize, id);
    }

    /// Frees the slot at `index`.
    pub(crate) fn vacate(&mut self, index: u16)
        requires
            old(self).wf(),
            FIXED_ENDPOINT_COUNT <= index < old(self)@.len(),
        ensures
            final(self).wf(),
            final(self)@ == old(self)@.update(index as int, chip_kInvalidEndpointId),
    {
        proof {
            lemma_vacate_keeps_valid(self@, index as int);
        }
        self.slots.set(index as usize, chip_kInvalidEndpointId);
    }
}

/// An id that stands in the table cannot be registered again: the attempt
/// fails as a duplicate and leaves the table as it is, whatever the runtime
/// would answer.
pub proof fn lemma_present_id_is_duplicate(s: Seq<u16>, id: u16, status: EmberAfStatus)
    requires
        s.contains(id),
    ensures
        registered(s, id, status) == (
            Err::<u16, EmberAfError>(EmberAfError(EmberAfStatus_EMBER_ZCL_STATUS_DUPLICATE_EXISTS)),
            s,
        ),
{
}

/// A successful registration puts the id into the table, in a dynamic slot
/// that was free, and keeps the table valid.
pub proof fn lemma_registered_is_present(s: Seq<u16>, id: u16, status: EmberAfStatus)
    requires
        valid_slots(s),
        registered(s, id, status).0 is Ok,
    ensures
        status == EmberAfStatus_EMBER_ZCL_STATUS_SUCCESS,
        id != chip_kInvalidEndpointId,
        !s.contains(id),
        valid_slots(registered(s, id, status).1),
        is_registered(registered(s, id, status).1, id),
        first_index(registered(s, id, status).1, id) == registered(s, id, status).0->Ok_0
            + FIXED_ENDPOINT_COUNT,
        s[registered(s, id, status).0->Ok_0 + FIXED_ENDPOINT_COUNT] == chip_kInvalidEndpointId,
{
    let free = first_index(s, chip_kInvalidEndpointId);
    lemma_free_slot_is_dynamic(s);
    lemma_first_index_exists(s, chip_kInvalidEndpointId);
    lemma_occupy_keeps_valid(s, free, id);
    let t = s.update(free, id);
    assert(t[free] == id);
    lemma_endpoint_index_unique(t, id, free);
}

/// Registering the same id twice, with nothing released in between, fails
/// the second time as a duplicate and changes nothing.
pub proof fn lemma_register_twice_is_duplicate(
    s: Seq<u16>,
    id: u16,
    first: EmberAfStatus,
    second: EmberAfStatus,
)
    requires
        valid_slots(s),
        registered(s, id, first).0 is Ok,
    ensures
        registered(registered(s, id, first).1, id, second) == (
            Err::<u16, EmberAfError>(EmberAfError(EmberAfStatus_EMBER_ZCL_STATUS_DUPLICATE_EXISTS)),
            registered(s, id, first).1,
        ),
{
    lemma_registered_is_present(s, id, first);
}

/// Whatever else is registered, an id that stands in the table stays where
/// it is.
pub proof fn lemma_registration_keeps_others(
    s: Seq<u16>,
    present: u16,
    id: u16,
    status: EmberAfStatus,
)
    requires
        valid_slots(s),
        present != chip_kInvalidEndpointId,
        s.contains(present),
    ensures
        registered(s, id, status).1.contains(present),
        first_index(registered(s, id, status).1, present) == first_index(s, present),
{
    lemma_first_index_exists(s, present);
    let at = first_index(s, present);
    let t = registered(s, id, status).1;
    if registered(s, id, status).0 is Ok {
        lemma_registered_is_present(s, id, status);
        lemma_free_slot_is_dynamic(s);
        let free = first_index(s, chip_kInvalidEndpointId);
        assert(t == s.update(free, id));
        assert(t[at] == present);
    } else {
        assert(t == s);
    }
    lemma_endpoint_index_unique(t, present, at);
}

/// Releasing one id leaves every other id where it is.
pub proof fn lemma_release_keeps_others(s: Seq<u16>, present: u16, id: u16)
    requires
        valid_slots(s),
        present != chip_kInvalidEndpointId,
        present != id,
        s.contains(present),
        is_registered(s, id),
    ensures
        valid_slots(released(s, id)),
        released(s, id).contains(present),
        first_index(released(s, id), present) == first_index(s, present),
{
    lemma_first_index_exists(s, present);
    lemma_first_index_exists(s, id);
    let at = first_index(s, present);
    lemma_vacate_keeps_valid(s, first_index(s, id));
    let t = released(s, id);
    assert(t[at] == present);
    lemma_endpoint_index_unique(t, present, at);
}

/// With every dynamic slot occupied, registering an id that the table does
/// not hold fails as exhausted and changes nothing, whatever the runtime
/// would answer.
pub proof fn lemma_full_table_is_exhausted(s: Seq<u16>, id: u16, status: EmberAfStatus)
    requires
        is_full(s),
        !s.contains(id),
    ensures
        registered(s, id, status) == (
            Err::<u16, EmberAfError>(
                EmberAfError(EmberAfStatus_EMBER_ZCL_STATUS_RESOURCE_EXHAUSTED),
            ),
            s,
        ),
{
}

/// Releasing a registered endpoint frees the one slot that holds its id and
/// no other: the slot is free afterwards, every other index is unchanged,
/// and the id is gone from the table.
pub proof fn lemma_release_frees_own_slot(s: Seq<u16>, id: u16, index: int)
    requires
        valid_slots(s),
        id != chip_kInvalidEndpointId,
        FIXED_ENDPOINT_COUNT <= index < s.len(),
        s[index] == id,
    ensures
        is_registered(s, id),
        first_index(s, id) == index,
        released(s, id) == s.update(index, chip_kInvalidEndpointId),
        released(s, id)[index] == chip_kInvalidEndpointId,
        forall|j: int| 0 <= j < s.len() && j != index ==> #[trigger] released(s, id)[j] == s[j],
        !released(s, id).contains(id),
        valid_slots(released(s, id)),
{
    lemma_endpoint_index_unique(s, id, index);
    lemma_vacate_keeps_valid(s, index);
    let t = released(s, id);
    if t.contains(id) {
        let k = choose|k: int| 0 <= k < t.len() && t[k] == id;
        assert(k != index);
        assert(s[k] == id);
        if k < index {
            assert(s[k] == s[index]);
        } else {
            assert(s[index] == s[k]);
        }
    }
}

/// Releasing what was just registered gives back the table as it was before
/// the registration.
pub proof fn lemma_release_undoes_registration(s: Seq<u16>, id: u16, status: EmberAfStatus)
    requires
        valid_slots(s),
        registered(s, id, status).0 is Ok,
    ensures
        released(registered(s, id, status).1, id) == s,
{
    lemma_registered_is_present(s, id, status);
    lemma_free_slot_is_dynamic(s);
    let free = first_index(s, chip_kInvalidEndpointId);
    let t = registered(s, id, status).1;
    assert(t == s.update(free, id));
    assert(first_index(t, id) == free);
    assert(released(t, id) =~= s);
}

/// From a full table, releasing one registered endpoint makes room for
/// exactly one registration: the next new id goes into the freed slot, the
/// table is full again, and a further new id is refused as exhausted.
pub proof fn lemma_release_admits_exactly_one(
    s: Seq<u16>,
    gone: u16,
    next: u16,
    further: u16,
    status: EmberAfStatus,
)
    requires
        valid_slots(s),
        is_full(s),
        is_registered(s, gone),
        next != chip_kInvalidEndpointId,
        !released(s, gone).contains(next),
        !registered(released(s, gone), next, EmberAfStatus_EMBER_ZCL_STATUS_SUCCESS).1.contains(
            further,
        ),
    ensures
        registered(released(s, gone), next, EmberAfStatus_EMBER_ZCL_STATUS_SUCCESS).0 == Ok::<
            u16,
            EmberAfError,
        >(dynamic_slot(s, gone)),
        is_full(registered(released(s, gone), next, EmberAfStatus_EMBER_ZCL_STATUS_SUCCESS).1),
        registered(
            registered(released(s, gone), next, EmberAfStatus_EMBER_ZCL_STATUS_SUCCESS).1,
            further,
            status,
        ).0 == Err::<u16, EmberAfError>(
            EmberAfError(EmberAfStatus_EMBER_ZCL_STATUS_RESOURCE_EXHAUSTED),
        ),
{
    lemma_first_index_exists(s, gone);
    let at = first_index(s, gone);
    let t = released(s, gone);
    assert(t[at] == chip_kInvalidEndpointId);
    assert forall|j: int| 0 <= j < at implies #[trigger] t[j] != chip_kInvalidEndpointId by {
        assert(t[j] == s[j]);
        assert(s.contains(s[j]));
    }
    lemma_first_index_unique(t, chip_kInvalidEndpointId, at);
    let u = registered(t, next, EmberAfStatus_EMBER_ZCL_STATUS_SUCCESS).1;
    assert(u == t.update(at, next));
    if u.contains(chip_kInvalidEndpointId) {
        let k = choose|k: int| 0 <= k < u.len() && u[k] == chip_kInvalidEndpointId;
        assert(k != at);
        assert(s[k] == chip_kInvalidEndpointId);
        assert(s.contains(chip_kInvalidEndpointId));
    }
}

/// Every change keeps the table valid: whatever is registered and released,
/// no endpoint id ever stands in two slots and no fixed index is ever freed.
pub proof fn lemma_table_stays_valid(s: Seq<u16>, ops: Seq<TableOp>)
    requires
        valid_slots(s),
    ensures
        valid_slots(after_all(s, ops)),
    decreases ops.len(),
{
    if ops.len() > 0 {
        lemma_table_stays_valid(s, ops.drop_last());
        let t = after_all(s, ops.drop_last());
        match ops.last() {
            TableOp::Register { id, status } => {
                if registered(t, id, status).0 is Ok {
                    lemma_registered_is_present(t, id, status);
                }
            },
            TableOp::Release { id } => {
                if is_registered(t, id) {
                    lemma_first_index_exists(t, id);
                    lemma_vacate_keeps_valid(t, first_index(t, id));
                }
            },
        }
    }
}

/// An endpoint id that stands in the table stays at its index for as long as
/// it is not released, whatever else is registered and released meanwhile.
pub proof fn lemma_stays_until_released(s: Seq<u16>, id: u16, ops: Seq<TableOp>)
    requires
        valid_slots(s),
        id != chip_kInvalidEndpointId,
        s.contains(id),
        forall|i: int| 0 <= i < ops.len() ==> #[trigger] ops[i] != (TableOp::Release { id }),
    ensures
        valid_slots(after_all(s, ops)),
        after_all(s, ops).contains(id),
        first_index(after_all(s, ops), id) == first_index(s, id),
    decreases ops.len(),
{
    lemma_table_stays_valid(s, ops);
    if ops.len() > 0 {
        let earlier = ops.drop_last();
        assert forall|i: int| 0 <= i < earlier.len() implies #[trigger] earlier[i] != (
        TableOp::Release { id }) by {
            assert(earlier[i] == ops[i]);
        }
        lemma_stays_until_released(s, id, earlier);
        let t = after_all(s, earlier);
        match ops.last() {
            TableOp::Register { id: other, status } => {
                lemma_registration_keeps_others(t, id, other, status);
            },
            TableOp::Release { id: other } => {
                assert(ops[ops.len() - 1] != (TableOp::Release { id }));
                if is_registered(t, other) {
                    lemma_release_keeps_others(t, id, other);
                }
            },
        }
    }
}

/// Registering an id again before its registration is released fails as a
/// duplicate and changes nothing, whatever else is registered and released
/// in between and whatever the runtime would answer.
pub proof fn lemma_registered_twice_before_release(
    s: Seq<u16>,
    id: u16,
    first: EmberAfStatus,
    ops: Seq<TableOp>,
    second: EmberAfStatus,
)
    requires
        valid_slots(s),
        registered(s, id, first).0 is Ok,
        forall|i: int| 0 <= i < ops.len() ==> #[trigger] ops[i] != (TableOp::Release { id }),
    ensures
        registered(after_all(registered(s, id, first).1, ops), id, second) == (
            Err::<u16, EmberAfError>(EmberAfError(EmberAfStatus_EMBER_ZCL_STATUS_DUPLICATE_EXISTS)),
            after_all(registered(s, id, first).1, ops),
        ),
{
    lemma_registered_is_present(s, id, first);
    lemma_stays_until_released(registered(s, id, first).1, id, ops);
}

/// Releasing a registration frees the slot that the registration took, and
/// no other, whatever else was registered and released in between.
pub proof fn lemma_release_frees_allocated_slot(
    s: Seq<u16>,
    id: u16,
    status: EmberAfStatus,
    ops: Seq<TableOp>,
)
    requires
        valid_slots(s),
        registered(s, id, status).0 is Ok,
        forall|i: int| 0 <= i < ops.len() ==> #[trigger] ops[i] != (TableOp::Release { id }),
    ensures
        is_registered(after_all(registered(s, id, status).1, ops), id),
        released(after_all(registered(s, id, status).1, ops), id) == after_all(
            registered(s, id, status).1,
            ops,
        ).update(
            registered(s, id, status).0->Ok_0 + FIXED_ENDPOINT_COUNT,
            chip_kInvalidEndpointId,
        ),
{
    lemma_registered_is_present(s, id, status);
    lemma_stays_until_released(registered(s, id, status).1, id, ops);
}

} // verus!
