//! The generic contracts that typed readers and builders implement, and the
//! lazy iterator over an indexable list view.
use vstd::prelude::*;
use crate::error::{Error, ErrorKind};
use crate::layout::{CapTable, ListBuilder, ListReader, Message, Pointer, PointerReader, StructBuilder, StructReader, StructSize};

verus! {

/// Builds a typed reader from a raw struct cursor.
pub trait FromStructReader<'a>: Sized {
    /// Whether `self` is a typed view of the struct that `reader` designates.
    spec fn views(&self, reader: StructReader<'a>) -> bool;

    fn new(reader: StructReader<'a>) -> (r: Self)
        ensures
            r.views(reader),
    ;
}

/// The fixed shape of a struct type.
pub trait HasStructSize {
    fn struct_size() -> StructSize;
}

/// Builds a typed builder from a raw struct handle.
pub trait FromStructBuilder: Sized {
    /// Whether `self` is a typed builder of the record `builder` designates.
    spec fn builds_on(&self, builder: StructBuilder) -> bool;

    fn new(builder: StructBuilder) -> (r: Self)
        ensures
            r.builds_on(builder),
    ;
}

/// Resolves a pointer to a typed reader; fails when the pointer's tag does not
/// match the type.
pub trait FromPointerReader<'a>: Sized {
    /// Whether a pointer with the tag of `p` can be read as this type.
    spec fn tag_matches(p: Pointer) -> bool;

    /// Whether `self` reads as the value that `p` designates.
    spec fn reads_as(&self, p: Pointer) -> bool;

    fn get_from_pointer(reader: &PointerReader<'a>) -> (r: Result<Self, Error>)
        ensures
            r is Ok <==> Self::tag_matches(reader.pointer()),
            r is Ok ==> r->Ok_0.reads_as(reader.pointer()),
            r is Err ==> r->Err_0.kind == ErrorKind::SchemaViolation,
    ;
}

/// Allocates, or resolves, a typed builder at a pointer slot.
pub trait FromPointerBuilder: Sized {
    /// `r` is a builder for a new zero-initialised value of `size` elements,
    /// stored in slot `slot` of `owner`: `before` becomes `after`.
    spec fn initialised(before: Message, owner: StructBuilder, slot: usize, size: u32, r: Self, after: Message) -> bool;

    /// What resolving the value in slot `slot` of `owner` does: `r` is the
    /// outcome, and `before` becomes `after`.
    spec fn resolved(before: Message, owner: StructBuilder, slot: usize, r: Result<Self, Error>, after: Message) -> bool;

    /// Stores a new zero-initialised value of `size` elements in the slot.
    fn init_pointer(msg: &mut Message, owner: StructBuilder, slot: usize, size: u32) -> (r: Self)
        requires
            old(msg).valid(owner),
            slot < old(msg).record(owner).pointers@.len(),
        ensures
            Self::initialised(*old(msg), owner, slot, size, r, *final(msg)),
    ;

    /// Resolves the value in the slot; fails when its tag does not match.
    fn get_from_pointer(msg: &mut Message, owner: StructBuilder, slot: usize) -> (r: Result<Self, Error>)
        requires
            old(msg).valid(owner),
            slot < old(msg).record(owner).pointers@.len(),
        ensures
            Self::resolved(*old(msg), owner, slot, r, *final(msg)),
    ;
}

/// Copies the value a reader designates into a new slot of a message being
/// built, exporting its capabilities into that message's table.
pub trait SetPointerBuilder<To>: Sized {
    /// Whether `self` can be copied into a message whose table holds
    /// `table_len` handles.
    spec fn copyable(&self, table_len: nat) -> bool;

    /// What copying `self` into message `before`, with table `table_before`,
    /// does: `r` is the outcome, `after` and `table_after` what follows.
    spec fn copied_into(
        &self,
        before: Message,
        table_before: Seq<u64>,
        r: Result<StructBuilder, Error>,
        after: Message,
        table_after: Seq<u64>,
    ) -> bool;

    fn set_pointer_builder(msg: &mut Message, table: &mut CapTable, value: Self) -> (r: Result<StructBuilder, Error>)
        requires
            value.copyable(old(table).caps@.len()),
        ensures
            value.copied_into(*old(msg), old(table).caps@, r, *final(msg), final(table).caps@),
    ;
}

/// Relates a schema type's marker to its reader and builder for a lifetime,
/// so that generic code can name the type without a lifetime of its own.
pub trait Owned<'a> {
    type Reader: FromPointerReader<'a> + SetPointerBuilder<Self::Builder>;
    type Builder;
}

/// The same relation for struct types.
pub trait OwnedStruct<'a> {
    type Reader: FromStructReader<'a> + SetPointerBuilder<Self::Builder>;
    type Builder: FromStructBuilder + HasStructSize;
}

/// Attaches a read-only capability table to a cursor.
pub trait Imbue<'a>: Sized {
    /// The table attached to the cursor, if any.
    spec fn attached_table(&self) -> Option<&'a CapTable>;

    /// Whether `self` and `other` designate the same location, whatever
    /// table each carries.
    spec fn same_location(&self, other: &Self) -> bool;

    fn imbue(&mut self, table: &'a CapTable)
        ensures
            final(self).attached_table() == Some(table),
            final(self).same_location(&*old(self)),
    ;
}

/// A schema type's identifier.
pub trait HasTypeId {
    fn type_id() -> u64;
}

/// The type through which calls are pipelined on a pending result.
pub trait Pipelined {
    type Pipeline;
}

/// The numeric code of a schema enumerant.
pub trait ToU16: Sized {
    spec fn spec_to_u16(self) -> u16;

    fn to_u16(self) -> (r: u16)
        ensures
            r == self.spec_to_u16(),
    ;
}

/// A code that names no enumerant of the schema.
#[derive(PartialEq, Eq, Structural, Clone, Copy, Debug)]
pub struct NotInSchema(pub u16);

/// The schema enumerant with a given numeric code.
pub trait FromU16: Sized + ToU16 {
    spec fn spec_from_u16(value: u16) -> Option<Self>;

    fn from_u16(value: u16) -> (r: Result<Self, NotInSchema>)
        ensures
            match Self::spec_from_u16(value) {
                Some(x) => r == Ok::<Self, NotInSchema>(x),
                None => r == Err::<Self, NotInSchema>(NotInSchema(value)),
            },
    ;
}

/// A side-effect-free projection of the element at an index.
pub trait IndexMove<I, T> {
    /// Whether `index` designates an element.
    spec fn index_ok(&self, index: I) -> bool;

    /// The element at `index`.
    spec fn spec_index_move(&self, index: I) -> T;

    fn index_move(&self, index: I) -> (r: T)
        requires
            self.index_ok(index),
        ensures
            r == self.spec_index_move(index),
    ;
}

impl<'a> FromPointerReader<'a> for ListReader<'a> {
    /// Anything but a capability reads as a list; null is the empty list.
    open spec fn tag_matches(p: Pointer) -> bool {
        !(p is Capability)
    }

    open spec fn reads_as(&self, p: Pointer) -> bool {
        self.elements() == match p {
            Pointer::List(v) => v@,
            _ => Seq::<u64>::empty(),
        }
    }

    fn get_from_pointer(reader: &PointerReader<'a>) -> Result<ListReader<'a>, Error> {
        reader.get_list()
    }
}

impl<'a> FromStructReader<'a> for StructReader<'a> {
    open spec fn views(&self, reader: StructReader<'a>) -> bool {
        *self == reader
    }

    fn new(reader: StructReader<'a>) -> StructReader<'a> {
        reader
    }
}

impl<'a> SetPointerBuilder<StructBuilder> for StructReader<'a> {
    open spec fn copyable(&self, table_len: nat) -> bool {
        self.well_formed() && table_len + self.pointer_section().len() <= u32::MAX
    }

    open spec fn copied_into(
        &self,
        before: Message,
        table_before: Seq<u64>,
        r: Result<StructBuilder, Error>,
        after: Message,
        table_after: Seq<u64>,
    ) -> bool {
        StructReader::copied_into(*self, before, table_before, r, after, table_after)
    }

    fn set_pointer_builder(msg: &mut Message, table: &mut CapTable, value: StructReader<'a>) -> Result<
        StructBuilder,
        Error,
    > {
        msg.copy_struct(table, &value)
    }
}

impl FromPointerBuilder for ListBuilder {
    open spec fn initialised(before: Message, owner: StructBuilder, slot: usize, size: u32, r: ListBuilder, after: Message) -> bool {
        ListBuilder::initialised(before, owner, slot, size, r, after)
    }

    open spec fn resolved(before: Message, owner: StructBuilder, slot: usize, r: Result<ListBuilder, Error>, after: Message) -> bool {
        ListBuilder::resolved(before, owner, slot, r, after)
    }

    fn init_pointer(msg: &mut Message, owner: StructBuilder, slot: usize, size: u32) -> ListBuilder {
        ListBuilder::init(msg, owner, slot, size)
    }

    fn get_from_pointer(msg: &mut Message, owner: StructBuilder, slot: usize) -> Result<ListBuilder, Error> {
        ListBuilder::get(msg, owner, slot)
    }
}

impl FromStructBuilder for StructBuilder {
    open spec fn builds_on(&self, builder: StructBuilder) -> bool {
        *self == builder
    }

    fn new(builder: StructBuilder) -> StructBuilder {
        builder
    }
}

impl<'a> Imbue<'a> for StructReader<'a> {
    open spec fn attached_table(&self) -> Option<&'a CapTable> {
        self.cap_table
    }

    open spec fn same_location(&self, other: &StructReader<'a>) -> bool {
        self.msg == other.msg && self.index == other.index
    }

    fn imbue(&mut self, table: &'a CapTable) {
        StructReader::imbue(self, table)
    }
}

impl<'a> IndexMove<u32, u64> for ListReader<'a> {
    open spec fn index_ok(&self, index: u32) -> bool {
        index < self.elements().len()
    }

    open spec fn spec_index_move(&self, index: u32) -> u64 {
        self.elements()[index as int]
    }

    fn index_move(&self, index: u32) -> (r: u64) {
        self.get(index)
    }
}

/// A forward-only walk over the elements `index..size` of a list view.
pub struct ListIter<T, U> {
    pub marker: core::marker::PhantomData<U>,
    pub list: T,
    pub index: u32,
    pub size: u32,
}

/// The elements `start..end` of `list`, in index order.
pub open spec fn elements_between<T: IndexMove<u32, U>, U>(list: T, start: u32, end: u32) -> Seq<U> {
    Seq::new((end - start) as nat, |k: int| list.spec_index_move((start + k) as u32))
}

impl<T: IndexMove<u32, U>, U> ListIter<T, U> {
    /// Every position the walk can still reach designates an element.
    pub open spec fn well_formed(self) -> bool {
        forall|i: u32| self.index <= i < self.size ==> self.list.index_ok(i)
    }

    /// The elements that the walk has yet to yield, in order.
    pub open spec fn remaining(self) -> Seq<U> {
        if self.index <= self.size {
            elements_between(self.list, self.index, self.size)
        } else {
            Seq::empty()
        }
    }

    pub fn new(list: T, size: u32) -> (r: ListIter<T, U>)
        ensures
            r.list == list,
            r.index == 0,
            r.size == size,
    {
        ListIter { list, index: 0, size, marker: core::marker::PhantomData }
    }

    /// The element at the current position, then one step forward; `None`
    /// once the position has reached the size.
    pub fn next(&mut self) -> (r: Option<U>)
        requires
            old(self).well_formed(),
        ensures
            final(self).list == old(self).list,
            final(self).size == old(self).size,
            final(self).well_formed(),
            old(self).index < old(self).size ==> {
                &&& r == Some(old(self).list.spec_index_move(old(self).index))
                &&& final(self).index == old(self).index + 1
            },
            old(self).index >= old(self).size ==> r.is_none() && final(self).index == old(self).index,
            r.is_none() <==> old(self).remaining().len() == 0,
            r.is_some() ==> r == Some(old(self).remaining()[0]),
            final(self).remaining() == if old(self).remaining().len() == 0 {
                old(self).remaining()
            } else {
                old(self).remaining().drop_first()
            },
    {
        if self.index < self.size {
            let result = self.list.index_move(self.index);
            self.index = self.index + 1;
            assert(final(self).remaining() =~= old(self).remaining().drop_first());
            Some(result)
        } else {
            None
        }
    }

    /// Yields every remaining element, in order.
    pub fn collect_remaining(&mut self) -> (r: Vec<U>)
        requires
            old(self).well_formed(),
        ensures
            r@ == old(self).remaining(),
            final(self).remaining().len() == 0,
            final(self).list == old(self).list,
            final(self).size == old(self).size,
    {
        let mut out: Vec<U> = Vec::new();
        let ghost all = self.remaining();
        loop
            invariant
                self.well_formed(),
                self.list == old(self).list,
                self.size == old(self).size,
                all == old(self).remaining(),
                out@ + self.remaining() == all,
            ensures
                out@ == all,
                self.remaining().len() == 0,
                self.list == old(self).list,
                self.size == old(self).size,
            decreases self.remaining().len(),
        {
            match self.next() {
                Some(x) => {
                    out.push(x);
                    assert(out@ + self.remaining() =~= all);
                },
                None => {
                    assert(out@ =~= all);
                    assert(self.remaining().len() == 0);
                    break;
                },
            }
        }
        out
    }
}

/// A fresh walk over a list view of length `n` yields exactly `n` elements,
/// those at indices `0..n` in order; a second fresh walk over the same view
/// yields the same sequence.
pub proof fn lemma_list_iteration<T: IndexMove<u32, U>, U>(first: ListIter<T, U>, second: ListIter<T, U>)
    requires
        first.index == 0,
        second.index == 0,
        second.list == first.list,
        second.size == first.size,
    ensures
        first.remaining().len() == first.size,
        forall|k: int| 0 <= k < first.size ==> first.remaining()[k] == first.list.spec_index_move(k as u32),
        second.remaining() == first.remaining(),
{
}

} // verus!
