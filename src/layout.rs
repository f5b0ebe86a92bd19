//! The message arena and the cursors over it.
//!
//! A message is an arena of struct records. Each record has a data section of
//! words and a pointer section. A pointer is null, a list of words, or a
//! capability, which is an index into a capability table. Readers borrow the
//! arena immutably; builders are index handles that are used together with an
//! exclusive borrow of the arena.
use vstd::prelude::*;
use crate::error::{Error, ErrorKind};

verus! {

/// What a pointer slot holds.
pub enum Pointer {
    Null,
    List(Vec<u64>),
    Capability(u32),
}

/// One struct record of a message.
pub struct StructData {
    pub data: Vec<u64>,
    pub pointers: Vec<Pointer>,
}

/// The fixed shape of a struct type: words of data, and pointer slots.
#[derive(PartialEq, Eq, Structural, Clone, Copy, Debug)]
pub struct StructSize {
    pub data: u16,
    pub pointers: u16,
}

/// A per-message table of capability handles, indexed by the integers that
/// capability pointers hold.
pub struct CapTable {
    pub caps: Vec<u64>,
}

/// An arena of struct records.
pub struct Message {
    pub structs: Vec<StructData>,
}

/// A handle on a struct record that is written through `&mut Message`.
#[derive(PartialEq, Eq, Structural, Clone, Copy, Debug)]
pub struct StructBuilder {
    pub index: usize,
}

/// A read-only view of a struct record, or of the default struct when
/// `index` is `None`.
#[derive(Clone, Copy)]
pub struct StructReader<'a> {
    pub msg: &'a Message,
    pub index: Option<usize>,
    pub cap_table: Option<&'a CapTable>,
}

/// A read-only view of one pointer slot; `None` stands for a null pointer.
#[derive(Clone, Copy)]
pub struct PointerReader<'a> {
    pub target: Option<&'a Pointer>,
    pub cap_table: Option<&'a CapTable>,
}

/// A read-only view of a list of words; `None` stands for the empty list.
#[derive(Clone, Copy)]
pub struct ListReader<'a> {
    pub items: Option<&'a Vec<u64>>,
}

/// A handle on the list held by pointer slot `slot` of record `owner`, written
/// through `&mut Message`.
#[derive(PartialEq, Eq, Structural, Clone, Copy, Debug)]
pub struct ListBuilder {
    pub owner: StructBuilder,
    pub slot: usize,
}

/// The capability handles that a (possibly missing) table holds.
pub open spec fn caps_of(t: Option<&CapTable>) -> Seq<u64> {
    match t {
        Some(t) => t.caps@,
        None => Seq::empty(),
    }
}

/// Whether pointer `p`, resolved against table `pt`, designates the same value
/// as pointer `q` resolved against table `qt`. Capabilities are equal when
/// both resolve to the same handle.
pub open spec fn pointee_eq(p: Pointer, pt: Seq<u64>, q: Pointer, qt: Seq<u64>) -> bool {
    match (p, q) {
        (Pointer::Null, Pointer::Null) => true,
        (Pointer::List(a), Pointer::List(b)) => a@ == b@,
        (Pointer::Capability(i), Pointer::Capability(j)) => i < pt.len() && j < qt.len() && pt[i as int]
            == qt[j as int],
        _ => false,
    }
}

/// Whether pointer `p` can be copied out of a message whose table is `t`.
pub open spec fn resolvable(p: Pointer, t: Seq<u64>) -> bool {
    match p {
        Pointer::Capability(i) => i < t.len(),
        _ => true,
    }
}

/// Bit `k` of word `w`.
pub open spec fn bit_of(w: u64, k: u64) -> bool {
    (w >> k) & 1u64 == 1u64
}

/// Word `w` with bit `k` set to `v`.
pub open spec fn with_bit(w: u64, k: u64, v: bool) -> u64 {
    if v {
        w | (1u64 << k)
    } else {
        w & !(1u64 << k)
    }
}

/// The zero-initialised record of shape `size`.
pub open spec fn is_zeroed(s: StructData, size: StructSize) -> bool {
    &&& s.data@ == Seq::new(size.data as nat, |i: int| 0u64)
    &&& s.pointers@.len() == size.pointers
    &&& forall|k: int| 0 <= k < s.pointers@.len() ==> s.pointers@[k] is Null
}

impl Message {
    /// The records other than `index` are unchanged, and so is the length.
    pub open spec fn others_unchanged(self, other: Message, index: int) -> bool {
        &&& self.structs@.len() == other.structs@.len()
        &&& forall|j: int| 0 <= j < self.structs@.len() && j != index ==> self.structs@[j] == other.structs@[j]
    }

    /// `after` is this message with data word `offset` of `b` set to `value`.
    pub open spec fn data_set(self, b: StructBuilder, offset: int, value: u64, after: Message) -> bool {
        &&& after.others_unchanged(self, b.index as int)
        &&& after.record(b).data@ == self.record(b).data@.update(offset, value)
        &&& after.record(b).pointers == self.record(b).pointers
    }

    /// `after` is this message with pointer slot `slot` of `b` set to `p`.
    pub open spec fn pointer_set(self, b: StructBuilder, slot: int, p: Pointer, after: Message) -> bool {
        &&& after.others_unchanged(self, b.index as int)
        &&& after.record(b).pointers@ == self.record(b).pointers@.update(slot, p)
        &&& after.record(b).data == self.record(b).data
    }

    /// Record `b`, its capabilities resolved against `table`, holds the same
    /// fields as the record that `src` designates.
    pub open spec fn holds_copy_of(self, b: StructBuilder, table: Seq<u64>, src: StructReader) -> bool {
        &&& self.record(b).data@ == src.data_section()
        &&& self.record(b).pointers@.len() == src.pointer_section().len()
        &&& forall|k: int|
            0 <= k < src.pointer_section().len() ==> pointee_eq(
                src.pointer_section()[k],
                caps_of(src.cap_table),
                self.record(b).pointers@[k],
                table,
            )
    }

    pub open spec fn valid(self, b: StructBuilder) -> bool {
        b.index < self.structs@.len()
    }

    pub open spec fn record(self, b: StructBuilder) -> StructData {
        self.structs@[b.index as int]
    }

    pub fn new() -> (r: Message)
        ensures
            r.structs@.len() == 0,
    {
        Message { structs: Vec::new() }
    }

    /// Allocates a zero-initialised record of the given shape.
    pub fn init_struct(&mut self, size: StructSize) -> (b: StructBuilder)
        ensures
            b.index == old(self).structs@.len(),
            final(self).structs@.len() == old(self).structs@.len() + 1,
            forall|j: int| 0 <= j < old(self).structs@.len() ==> final(self).structs@[j] == old(self).structs@[j],
            is_zeroed(final(self).structs@[b.index as int], size),
    {
        let mut data: Vec<u64> = Vec::new();
        let mut i: u16 = 0;
        while i < size.data
            invariant
                i <= size.data,
                data@ == Seq::new(i as nat, |k: int| 0u64),
            decreases size.data - i,
        {
            data.push(0);
            i = i + 1;
            assert(data@ =~= Seq::new(i as nat, |k: int| 0u64));
        }
        let mut pointers: Vec<Pointer> = Vec::new();
        let mut j: u16 = 0;
        while j < size.pointers
            invariant
                j <= size.pointers,
                pointers@.len() == j,
                forall|k: int| 0 <= k < pointers@.len() ==> pointers@[k] is Null,
            decreases size.pointers - j,
        {
            pointers.push(Pointer::Null);
            j = j + 1;
        }
        let index = self.structs.len();
        self.structs.push(StructData { data, pointers });
        StructBuilder { index }
    }

    /// A reader over record `b`, not yet imbued with a capability table.
    pub fn get_reader(&self, b: StructBuilder) -> (r: StructReader<'_>)
        requires
            self.valid(b),
        ensures
            r.msg == self,
            r.index == Some(b.index),
            r.cap_table.is_none(),
    {
        StructReader { msg: self, index: Some(b.index), cap_table: None }
    }

    /// Writes word `offset` of the data section of `b`.
    pub fn set_data_field(&mut self, b: StructBuilder, offset: usize, value: u64)
        requires
            old(self).valid(b),
            offset < old(self).record(b).data@.len(),
        ensures
            old(self).data_set(b, offset as int, value, *final(self)),
    {
        let mut rec = self.structs.remove(b.index);
        rec.data.set(offset, value);
        self.structs.insert(b.index, rec);
        assert(final(self).structs@ =~= old(self).structs@.update(b.index as int, rec));
    }

    /// Writes the data bit at `bit_offset` of `b`.
    pub fn set_bool_field(&mut self, b: StructBuilder, bit_offset: usize, value: bool)
        requires
            old(self).valid(b),
            bit_offset / 64 < old(self).record(b).data@.len(),
        ensures
            old(self).data_set(
                b,
                (bit_offset / 64) as int,
                with_bit(old(self).record(b).data@[(bit_offset / 64) as int], (bit_offset % 64) as u64, value),
                *final(self),
            ),
    {
        let w = self.structs[b.index].data[bit_offset / 64];
        let k = (bit_offset % 64) as u64;
        let nw = if value {
            w | (1u64 << k)
        } else {
            w & !(1u64 << k)
        };
        self.set_data_field(b, bit_offset / 64, nw);
    }

    /// Stores pointer `p` in slot `slot` of `b`.
    pub fn set_pointer(&mut self, b: StructBuilder, slot: usize, p: Pointer)
        requires
            old(self).valid(b),
            slot < old(self).record(b).pointers@.len(),
        ensures
            old(self).pointer_set(b, slot as int, p, *final(self)),
    {
        let mut rec = self.structs.remove(b.index);
        rec.pointers.set(slot, p);
        self.structs.insert(b.index, rec);
        assert(final(self).structs@ =~= old(self).structs@.update(b.index as int, rec));
    }

    /// Stores a zero-filled list of `len` words in slot `slot` of `b`.
    pub fn init_list(&mut self, b: StructBuilder, slot: usize, len: u32)
        requires
            old(self).valid(b),
            slot < old(self).record(b).pointers@.len(),
        ensures
            final(self).others_unchanged(*old(self), b.index as int),
            final(self).record(b).data == old(self).record(b).data,
            final(self).record(b).pointers@.len() == old(self).record(b).pointers@.len(),
            forall|k: int|
                0 <= k < final(self).record(b).pointers@.len() && k != slot ==> final(self).record(b).pointers@[k]
                    == old(self).record(b).pointers@[k],
            match final(self).record(b).pointers@[slot as int] {
                Pointer::List(v) => v@ == Seq::new(len as nat, |i: int| 0u64),
                _ => false,
            },
    {
        let mut v: Vec<u64> = Vec::new();
        let mut i: u32 = 0;
        while i < len
            invariant
                i <= len,
                v@ == Seq::new(i as nat, |k: int| 0u64),
            decreases len - i,
        {
            v.push(0);
            i = i + 1;
            assert(v@ =~= Seq::new(i as nat, |k: int| 0u64));
        }
        self.set_pointer(b, slot, Pointer::List(v));
    }

    /// Stores a list holding `items` in slot `slot` of `b`.
    pub fn set_list(&mut self, b: StructBuilder, slot: usize, items: Vec<u64>)
        requires
            old(self).valid(b),
            slot < old(self).record(b).pointers@.len(),
        ensures
            old(self).pointer_set(b, slot as int, Pointer::List(items), *final(self)),
    {
        self.set_pointer(b, slot, Pointer::List(items));
    }

    /// Exports capability `cap` into `table` and stores a pointer to it in
    /// slot `slot` of `b`.
    pub fn set_capability(&mut self, table: &mut CapTable, b: StructBuilder, slot: usize, cap: u64)
        requires
            old(self).valid(b),
            slot < old(self).record(b).pointers@.len(),
            old(table).caps@.len() < u32::MAX,
        ensures
            final(table).caps@ == old(table).caps@.push(cap),
            old(self).pointer_set(b, slot as int, Pointer::Capability(old(table).caps@.len() as u32), *final(self)),
    {
        let i = table.caps.len() as u32;
        table.caps.push(cap);
        self.set_pointer(b, slot, Pointer::Capability(i));
    }
}

impl ListBuilder {
    /// The handle designates a list slot of an existing record.
    pub open spec fn valid_in(self, msg: Message) -> bool {
        &&& msg.valid(self.owner)
        &&& self.slot < msg.record(self.owner).pointers@.len()
        &&& msg.record(self.owner).pointers@[self.slot as int] is List
    }

    /// The words of the list, in `msg`.
    pub open spec fn elements_in(self, msg: Message) -> Seq<u64> {
        match msg.record(self.owner).pointers@[self.slot as int] {
            Pointer::List(v) => v@,
            _ => Seq::empty(),
        }
    }

    /// `r` is a builder for slot `slot` of `owner` in `after`, which is
    /// `before` with a zero-filled list of `len` words stored in that slot.
    pub open spec fn initialised(before: Message, owner: StructBuilder, slot: usize, len: u32, r: ListBuilder, after: Message) -> bool {
        &&& r == (ListBuilder { owner, slot })
        &&& r.valid_in(after)
        &&& r.elements_in(after) == Seq::new(len as nat, |i: int| 0u64)
        &&& after.others_unchanged(before, owner.index as int)
        &&& after.record(owner).data == before.record(owner).data
        &&& after.record(owner).pointers@.len() == before.record(owner).pointers@.len()
        &&& forall|k: int|
            0 <= k < after.record(owner).pointers@.len() && k != slot
                ==> after.record(owner).pointers@[k] == before.record(owner).pointers@[k]
    }

    /// What resolving slot `slot` of `owner` as a list does, by the slot's tag:
    /// a list is handed out as it is; a null slot first receives an empty
    /// list; a capability is a schema violation and changes nothing.
    pub open spec fn resolved(before: Message, owner: StructBuilder, slot: usize, r: Result<ListBuilder, Error>, after: Message) -> bool {
        match before.record(owner).pointers@[slot as int] {
            Pointer::List(v) => {
                &&& r == Ok::<ListBuilder, Error>(ListBuilder { owner, slot })
                &&& after == before
            },
            Pointer::Null => {
                &&& r == Ok::<ListBuilder, Error>(ListBuilder { owner, slot })
                &&& before.pointer_set(owner, slot as int, after.record(owner).pointers@[slot as int], after)
                &&& r->Ok_0.valid_in(after)
                &&& r->Ok_0.elements_in(after).len() == 0
            },
            Pointer::Capability(_) => {
                &&& r is Err
                &&& r->Err_0.kind == ErrorKind::SchemaViolation
                &&& after == before
            },
        }
    }

    /// Stores a zero-filled list of `len` words in slot `slot` of `owner`, and
    /// hands out a builder for it.
    pub fn init(msg: &mut Message, owner: StructBuilder, slot: usize, len: u32) -> (r: ListBuilder)
        requires
            old(msg).valid(owner),
            slot < old(msg).record(owner).pointers@.len(),
        ensures
            ListBuilder::initialised(*old(msg), owner, slot, len, r, *final(msg)),
    {
        msg.init_list(owner, slot, len);
        ListBuilder { owner, slot }
    }

    /// A builder for the list in slot `slot` of `owner`. A null slot first
    /// receives an empty list; a capability is a schema violation.
    pub fn get(msg: &mut Message, owner: StructBuilder, slot: usize) -> (r: Result<ListBuilder, Error>)
        requires
            old(msg).valid(owner),
            slot < old(msg).record(owner).pointers@.len(),
        ensures
            ListBuilder::resolved(*old(msg), owner, slot, r, *final(msg)),
    {
        let is_null = match &msg.structs[owner.index].pointers[slot] {
            Pointer::List(_) => false,
            Pointer::Null => true,
            Pointer::Capability(_) => {
                return Err(Error::schema_violation("expected a list, found a capability".to_string()));
            },
        };
        if is_null {
            msg.set_pointer(owner, slot, Pointer::List(Vec::new()));
        }
        Ok(ListBuilder { owner, slot })
    }

    /// Writes element `index` of the list.
    pub fn set(&self, msg: &mut Message, index: usize, value: u64)
        requires
            self.valid_in(*old(msg)),
            index < self.elements_in(*old(msg)).len(),
        ensures
            self.valid_in(*final(msg)),
            final(msg).others_unchanged(*old(msg), self.owner.index as int),
            final(msg).record(self.owner).data == old(msg).record(self.owner).data,
            final(msg).record(self.owner).pointers@.len() == old(msg).record(self.owner).pointers@.len(),
            forall|k: int|
                0 <= k < final(msg).record(self.owner).pointers@.len() && k != self.slot
                    ==> final(msg).record(self.owner).pointers@[k] == old(msg).record(self.owner).pointers@[k],
            self.elements_in(*final(msg)) == self.elements_in(*old(msg)).update(index as int, value),
    {
        let mut rec = msg.structs.remove(self.owner.index);
        let p = rec.pointers.remove(self.slot);
        let q = match p {
            Pointer::List(mut v) => {
                v.set(index, value);
                Pointer::List(v)
            },
            other => other,
        };
        rec.pointers.insert(self.slot, q);
        msg.structs.insert(self.owner.index, rec);
        assert(final(msg).structs@ =~= old(msg).structs@.update(self.owner.index as int, rec));
        assert(rec.pointers@ =~= old(msg).record(self.owner).pointers@.update(self.slot as int, q));
    }
}

/// A fresh vector holding the same words as `v`.
fn copy_words(v: &Vec<u64>) -> (r: Vec<u64>)
    ensures
        r@ == v@,
{
    let mut r: Vec<u64> = Vec::new();
    let mut i: usize = 0;
    while i < v.len()
        invariant
            i <= v@.len(),
            r@ == v@.subrange(0, i as int),
        decreases v@.len() - i,
    {
        r.push(v[i]);
        i = i + 1;
        assert(r@ =~= v@.subrange(0, i as int));
    }
    assert(r@ =~= v@);
    r
}

impl Message {
    /// Copies the record that `src` designates into a new record of this
    /// message. Lists are copied word for word; each capability is resolved
    /// through the source's table and exported into `table`, so that it
    /// designates the same handle. Fails, changing nothing, when a capability
    /// of the source cannot be resolved.
    pub fn copy_struct(&mut self, table: &mut CapTable, src: &StructReader) -> (r: Result<StructBuilder, Error>)
        requires
            src.well_formed(),
            old(table).caps@.len() + src.pointer_section().len() <= u32::MAX,
        ensures
            src.copied_into(*old(self), old(table).caps@, r, *final(self), final(table).caps@),
            r is Err ==> *final(self) == *old(self) && *final(table) == *old(table),
    {
        let empty: Vec<u64> = Vec::new();
        let empty_pointers: Vec<Pointer> = Vec::new();
        let (data, pointers): (&Vec<u64>, &Vec<Pointer>) = match src.index {
            Some(i) => (&src.msg.structs[i].data, &src.msg.structs[i].pointers),
            None => (&empty, &empty_pointers),
        };
        assert(data@ == src.data_section());
        assert(pointers@ == src.pointer_section());
        let ghost st = caps_of(src.cap_table);
        let n_src_caps: usize = match src.cap_table {
            Some(t) => t.caps.len(),
            None => 0,
        };
        let mut k: usize = 0;
        while k < pointers.len()
            invariant
                k <= pointers@.len(),
                n_src_caps == st.len(),
                st == caps_of(src.cap_table),
                pointers@ == src.pointer_section(),
                forall|m: int| 0 <= m < k ==> resolvable(pointers@[m], st),
            decreases pointers@.len() - k,
        {
            match &pointers[k] {
                Pointer::Capability(i) => {
                    if (*i as usize) >= n_src_caps {
                        assert(!resolvable(src.pointer_section()[k as int], caps_of(src.cap_table)));
                        return Err(Error::failed("capability index out of table".to_string()));
                    }
                },
                _ => {},
            }
            k = k + 1;
        }
        let new_data = copy_words(data);
        let ghost old_caps = table.caps@;
        let mut new_pointers: Vec<Pointer> = Vec::new();
        let mut j: usize = 0;
        while j < pointers.len()
            invariant
                j <= pointers@.len(),
                n_src_caps == st.len(),
                st == caps_of(src.cap_table),
                old_caps == old(table).caps@,
                pointers@ == src.pointer_section(),
                old_caps.len() + pointers@.len() <= u32::MAX,
                forall|m: int| 0 <= m < pointers@.len() ==> resolvable(pointers@[m], st),
                new_pointers@.len() == j,
                old_caps.len() <= table.caps@.len() <= old_caps.len() + j,
                table.caps@.subrange(0, old_caps.len() as int) == old_caps,
                forall|m: int| 0 <= m < j ==> pointee_eq(pointers@[m], st, new_pointers@[m], table.caps@),
            decreases pointers@.len() - j,
        {
            let ghost before = table.caps@;
            let p = match &pointers[j] {
                Pointer::Null => Pointer::Null,
                Pointer::List(v) => Pointer::List(copy_words(v)),
                Pointer::Capability(i) => {
                    let id = match src.cap_table {
                        Some(t) => t.caps[*i as usize],
                        None => 0,
                    };
                    let ni = table.caps.len() as u32;
                    table.caps.push(id);
                    Pointer::Capability(ni)
                },
            };
            new_pointers.push(p);
            assert forall|m: int| 0 <= m < j implies pointee_eq(
                pointers@[m],
                st,
                new_pointers@[m],
                table.caps@,
            ) by {
                assert(pointee_eq(pointers@[m], st, new_pointers@[m], before));
                match new_pointers@[m] {
                    Pointer::Capability(q) => {
                        assert(table.caps@[q as int] == before[q as int]);
                    },
                    _ => {},
                }
            }
            assert(table.caps@.subrange(0, old_caps.len() as int) =~= old_caps);
            j = j + 1;
        }
        let b = StructBuilder { index: self.structs.len() };
        self.structs.push(StructData { data: new_data, pointers: new_pointers });
        Ok(b)
    }
}

impl<'a> StructReader<'a> {
    /// The reader of the default struct: every field reads as zero or null.
    pub fn null(msg: &'a Message) -> (r: StructReader<'a>)
        ensures
            r.msg == msg,
            r.index.is_none(),
            r.cap_table.is_none(),
    {
        StructReader { msg, index: None, cap_table: None }
    }

    /// Whether the reader designates an existing record.
    pub open spec fn well_formed(self) -> bool {
        match self.index {
            Some(i) => i < self.msg.structs@.len(),
            None => true,
        }
    }

    /// The data section seen through this reader.
    pub open spec fn data_section(self) -> Seq<u64> {
        match self.index {
            Some(i) => self.msg.structs@[i as int].data@,
            None => Seq::empty(),
        }
    }

    /// The pointer section seen through this reader.
    pub open spec fn pointer_section(self) -> Seq<Pointer> {
        match self.index {
            Some(i) => self.msg.structs@[i as int].pointers@,
            None => Seq::empty(),
        }
    }

    /// Every capability pointer of the record resolves through its table.
    pub open spec fn all_resolvable(self) -> bool {
        forall|k: int|
            0 <= k < self.pointer_section().len() ==> resolvable(self.pointer_section()[k], caps_of(self.cap_table))
    }

    /// What copying this record into message `before`, whose table holds
    /// `table_before`, does: `r` is the outcome, `after` and `table_after`
    /// the message and table that follow. The copy succeeds exactly when every
    /// capability resolves; it is appended as a new record, the other records
    /// and the table's prefix are kept, and the new record holds the same
    /// fields. A failure has kind `Failed` and changes nothing.
    pub open spec fn copied_into(
        self,
        before: Message,
        table_before: Seq<u64>,
        r: Result<StructBuilder, Error>,
        after: Message,
        table_after: Seq<u64>,
    ) -> bool {
        match r {
            Ok(b) => {
                &&& self.all_resolvable()
                &&& b.index == before.structs@.len()
                &&& after.structs@.len() == before.structs@.len() + 1
                &&& forall|j: int| 0 <= j < before.structs@.len() ==> after.structs@[j] == before.structs@[j]
                &&& table_after.len() >= table_before.len()
                &&& table_after.subrange(0, table_before.len() as int) == table_before
                &&& after.holds_copy_of(b, table_after, self)
            },
            Err(e) => {
                &&& e.kind == ErrorKind::Failed
                &&& !self.all_resolvable()
                &&& after == before
                &&& table_after == table_before
            },
        }
    }

    /// Data word `offset`; words past the end of the section read as zero.
    pub open spec fn data_word(self, offset: int) -> u64 {
        if 0 <= offset < self.data_section().len() {
            self.data_section()[offset]
        } else {
            0
        }
    }

    /// Pointer slot `index`; slots past the end of the section read as null.
    pub open spec fn pointer_at(self, index: int) -> Pointer {
        if 0 <= index < self.pointer_section().len() {
            self.pointer_section()[index]
        } else {
            Pointer::Null
        }
    }

    /// Attaches the capability table that capability pointers resolve against.
    pub fn imbue(&mut self, table: &'a CapTable)
        ensures
            final(self).msg == old(self).msg,
            final(self).index == old(self).index,
            final(self).cap_table == Some(table),
    {
        self.cap_table = Some(table);
    }

    pub fn get_data_field(&self, offset: usize) -> (r: u64)
        requires
            self.well_formed(),
        ensures
            r == self.data_word(offset as int),
    {
        match self.index {
            Some(i) => {
                let data = &self.msg.structs[i].data;
                if offset < data.len() {
                    data[offset]
                } else {
                    0
                }
            },
            None => 0,
        }
    }

    pub fn get_bool_field(&self, bit_offset: usize) -> (r: bool)
        requires
            self.well_formed(),
        ensures
            r == bit_of(self.data_word((bit_offset / 64) as int), (bit_offset % 64) as u64),
    {
        let w = self.get_data_field(bit_offset / 64);
        let k = (bit_offset % 64) as u64;
        (w >> k) & 1u64 == 1u64
    }

    pub fn get_pointer_field(&self, index: usize) -> (r: PointerReader<'a>)
        requires
            self.well_formed(),
        ensures
            r.cap_table == self.cap_table,
            match r.target {
                Some(p) => *p == self.pointer_at(index as int) && !(self.pointer_at(index as int) is Null),
                None => self.pointer_at(index as int) is Null,
            },
    {
        match self.index {
            Some(i) => {
                let pointers = &self.msg.structs[i].pointers;
                if index < pointers.len() {
                    let p = &pointers[index];
                    match p {
                        Pointer::Null => PointerReader { target: None, cap_table: self.cap_table },
                        _ => PointerReader { target: Some(p), cap_table: self.cap_table },
                    }
                } else {
                    PointerReader { target: None, cap_table: self.cap_table }
                }
            },
            None => PointerReader { target: None, cap_table: self.cap_table },
        }
    }
}

impl<'a> PointerReader<'a> {
    /// The pointer this reader designates.
    pub open spec fn pointer(self) -> Pointer {
        match self.target {
            Some(p) => *p,
            None => Pointer::Null,
        }
    }

    /// Resolves the pointer as a list: a null pointer is the empty list, a
    /// capability is a schema violation.
    pub fn get_list(&self) -> (r: Result<ListReader<'a>, Error>)
        ensures
            match self.pointer() {
                Pointer::Null => r is Ok && r->Ok_0.elements() == Seq::<u64>::empty(),
                Pointer::List(v) => r is Ok && r->Ok_0.elements() == v@,
                Pointer::Capability(_) => r is Err && r->Err_0.kind == ErrorKind::SchemaViolation,
            },
    {
        match self.target {
            None => Ok(ListReader { items: None }),
            Some(p) => match p {
                Pointer::Null => Ok(ListReader { items: None }),
                Pointer::List(v) => Ok(ListReader { items: Some(v) }),
                Pointer::Capability(_) => Err(
                    Error::schema_violation("expected a list, found a capability".to_string()),
                ),
            },
        }
    }

    /// Resolves the pointer as a capability handle, through the imbued table.
    pub fn get_capability(&self) -> (r: Result<u64, Error>)
        ensures
            match self.pointer() {
                Pointer::Capability(i) => if i < caps_of(self.cap_table).len() {
                    r == Ok::<u64, Error>(caps_of(self.cap_table)[i as int])
                } else {
                    r is Err && r->Err_0.kind == ErrorKind::Failed
                },
                Pointer::List(_) => r is Err && r->Err_0.kind == ErrorKind::SchemaViolation,
                Pointer::Null => r is Err && r->Err_0.kind == ErrorKind::Failed,
            },
    {
        match self.target {
            None => Err(Error::failed("capability pointer is null".to_string())),
            Some(p) => match p {
                Pointer::Null => Err(Error::failed("capability pointer is null".to_string())),
                Pointer::List(_) => Err(
                    Error::schema_violation("expected a capability, found a list".to_string()),
                ),
                Pointer::Capability(i) => match self.cap_table {
                    Some(t) => {
                        if (*i as usize) < t.caps.len() {
                            Ok(t.caps[*i as usize])
                        } else {
                            Err(Error::failed("capability index out of table".to_string()))
                        }
                    },
                    None => Err(Error::failed("no capability table attached".to_string())),
                },
            },
        }
    }
}

impl<'a> ListReader<'a> {
    /// The words of the list.
    pub open spec fn elements(self) -> Seq<u64> {
        match self.items {
            Some(v) => v@,
            None => Seq::empty(),
        }
    }

    pub fn len(&self) -> (r: u32)
        requires
            self.elements().len() <= u32::MAX,
        ensures
            r == self.elements().len(),
    {
        match self.items {
            Some(v) => v.len() as u32,
            None => 0,
        }
    }

    pub fn get(&self, index: u32) -> (r: u64)
        requires
            index < self.elements().len(),
        ensures
            r == self.elements()[index as int],
    {
        match self.items {
            Some(v) => v[index as usize],
            None => 0,
        }
    }
}

/// Reading bit `k` of a word in which bit `k` was just set to `v` gives `v`.
pub proof fn lemma_bit_round_trip(w: u64, k: u64, v: bool)
    requires
        k < 64,
    ensures
        bit_of(with_bit(w, k, v), k) == v,
{
    if v {
        assert(((w | (1u64 << k)) >> k) & 1u64 == 1u64) by (bit_vector)
            requires
                k < 64,
        ;
    } else {
        assert(((w & !(1u64 << k)) >> k) & 1u64 == 0u64) by (bit_vector)
            requires
                k < 64,
        ;
    }
}

/// A data word written through a builder reads back, through a reader of the
/// same record, as the value written.
pub proof fn lemma_data_round_trip(before: Message, after: Message, b: StructBuilder, offset: usize, value: u64, r: StructReader)
    requires
        before.valid(b),
        offset < before.record(b).data@.len(),
        before.data_set(b, offset as int, value, after),
        *r.msg == after,
        r.index == Some(b.index),
    ensures
        r.data_word(offset as int) == value,
{
}

/// A bool written through a builder reads back, through a reader of the same
/// record, as the value written.
pub proof fn lemma_bool_round_trip(before: Message, after: Message, b: StructBuilder, bit_offset: usize, value: bool, r: StructReader)
    requires
        before.valid(b),
        bit_offset / 64 < before.record(b).data@.len(),
        before.data_set(
            b,
            (bit_offset / 64) as int,
            with_bit(before.record(b).data@[(bit_offset / 64) as int], (bit_offset % 64) as u64, value),
            after,
        ),
        *r.msg == after,
        r.index == Some(b.index),
    ensures
        bit_of(r.data_word((bit_offset / 64) as int), (bit_offset % 64) as u64) == value,
{
    lemma_bit_round_trip(before.record(b).data@[(bit_offset / 64) as int], (bit_offset % 64) as u64, value);
}

/// A list stored through a builder reads back, through a reader of the same
/// record, as the words stored.
pub proof fn lemma_list_round_trip(before: Message, after: Message, b: StructBuilder, slot: usize, items: Vec<u64>, r: StructReader)
    requires
        before.valid(b),
        slot < before.record(b).pointers@.len(),
        before.pointer_set(b, slot as int, Pointer::List(items), after),
        *r.msg == after,
        r.index == Some(b.index),
    ensures
        match r.pointer_at(slot as int) {
            Pointer::List(v) => v@ == items@,
            _ => false,
        },
{
}

/// A capability stored through a builder reads back, through a reader of the
/// same record imbued with the message's table, as the same handle.
pub proof fn lemma_capability_round_trip(
    before: Message,
    after: Message,
    table_before: Seq<u64>,
    table_after: Seq<u64>,
    b: StructBuilder,
    slot: usize,
    cap: u64,
    r: StructReader,
)
    requires
        before.valid(b),
        slot < before.record(b).pointers@.len(),
        table_before.len() < u32::MAX,
        table_after == table_before.push(cap),
        before.pointer_set(b, slot as int, Pointer::Capability(table_before.len() as u32), after),
        *r.msg == after,
        r.index == Some(b.index),
        caps_of(r.cap_table) == table_after,
    ensures
        match r.pointer_at(slot as int) {
            Pointer::Capability(i) => i < caps_of(r.cap_table).len() && caps_of(r.cap_table)[i as int] == cap,
            _ => false,
        },
{
}

/// A record copied from `src` reads, through a reader imbued with the
/// destination's table, field for field as the source does: every data word,
/// every list, and every capability (the same handle), including the fields
/// past the end of either section.
pub proof fn lemma_copy_fidelity(src: StructReader, dst_msg: Message, b: StructBuilder, dst: StructReader)
    requires
        src.well_formed(),
        dst_msg.valid(b),
        dst_msg.holds_copy_of(b, caps_of(dst.cap_table), src),
        *dst.msg == dst_msg,
        dst.index == Some(b.index),
    ensures
        forall|offset: int| dst.data_word(offset) == src.data_word(offset),
        forall|k: int|
            0 <= k < src.pointer_section().len() ==> pointee_eq(
                src.pointer_at(k),
                caps_of(src.cap_table),
                dst.pointer_at(k),
                caps_of(dst.cap_table),
            ),
        forall|k: int| !(0 <= k < src.pointer_section().len()) ==> src.pointer_at(k) is Null && dst.pointer_at(k) is Null,
{
}

} // verus!
