use capnp::error::ErrorKind;
use capnp::layout::{CapTable, Message, Pointer, StructReader, StructSize};
use capnp::traits::{FromStructReader, Imbue};
use capnp::traits::{FromPointerBuilder, FromPointerReader, IndexMove, ListIter, SetPointerBuilder};
use capnp::layout::{ListBuilder, ListReader, StructBuilder};

fn shape(data: u16, pointers: u16) -> StructSize {
    StructSize { data, pointers }
}

#[test]
fn new_struct_reads_as_zero_and_null() {
    let mut msg = Message::new();
    let b = msg.init_struct(shape(2, 1));
    let r = msg.get_reader(b);
    assert_eq!(r.get_data_field(0), 0);
    assert_eq!(r.get_data_field(1), 0);
    assert!(!r.get_bool_field(5));
    assert!(r.get_pointer_field(0).target.is_none());
}

#[test]
fn data_field_round_trip() {
    let mut msg = Message::new();
    let b = msg.init_struct(shape(3, 0));
    msg.set_data_field(b, 1, 123);
    msg.set_data_field(b, 2, u64::MAX);
    let r = msg.get_reader(b);
    assert_eq!(r.get_data_field(0), 0);
    assert_eq!(r.get_data_field(1), 123);
    assert_eq!(r.get_data_field(2), u64::MAX);
    // Past the end of the data section a word reads as zero.
    assert_eq!(r.get_data_field(3), 0);
}

#[test]
fn bool_field_round_trip() {
    let mut msg = Message::new();
    let b = msg.init_struct(shape(2, 0));
    msg.set_bool_field(b, 0, true);
    msg.set_bool_field(b, 64 + 63, true);
    msg.set_bool_field(b, 5, true);
    msg.set_bool_field(b, 5, false);
    let r = msg.get_reader(b);
    assert!(r.get_bool_field(0));
    assert!(r.get_bool_field(127));
    assert!(!r.get_bool_field(5));
    assert!(!r.get_bool_field(1));
    assert_eq!(r.get_data_field(0), 1);
    assert_eq!(r.get_data_field(1), 1u64 << 63);
}

#[test]
fn list_round_trip() {
    let mut msg = Message::new();
    let b = msg.init_struct(shape(0, 2));
    msg.set_list(b, 0, vec![7, 8, 9]);
    msg.init_list(b, 1, 2);
    let r = msg.get_reader(b);
    let l = r.get_pointer_field(0).get_list().ok().unwrap();
    assert_eq!(l.len(), 3);
    assert_eq!(l.get(0), 7);
    assert_eq!(l.get(2), 9);
    let z = r.get_pointer_field(1).get_list().ok().unwrap();
    assert_eq!(z.len(), 2);
    assert_eq!(z.get(1), 0);
}

#[test]
fn null_pointer_reads_as_empty_list() {
    let mut msg = Message::new();
    let b = msg.init_struct(shape(0, 1));
    let r = msg.get_reader(b);
    let l = r.get_pointer_field(0).get_list().ok().unwrap();
    assert_eq!(l.len(), 0);
    // A slot past the end of the pointer section is null too.
    let l2 = r.get_pointer_field(4).get_list().ok().unwrap();
    assert_eq!(l2.len(), 0);
}

#[test]
fn capability_round_trip_through_imbued_table() {
    let mut msg = Message::new();
    let mut table = CapTable { caps: vec![11] };
    let b = msg.init_struct(shape(0, 1));
    msg.set_capability(&mut table, b, 0, 42);
    assert_eq!(table.caps, vec![11, 42]);
    let mut r = msg.get_reader(b);
    r.imbue(&table);
    assert_eq!(r.get_pointer_field(0).get_capability().ok(), Some(42));
}

#[test]
fn capability_without_table_fails() {
    let mut msg = Message::new();
    let mut table = CapTable { caps: Vec::new() };
    let b = msg.init_struct(shape(0, 1));
    msg.set_capability(&mut table, b, 0, 42);
    let r = msg.get_reader(b);
    let e = r.get_pointer_field(0).get_capability().err().unwrap();
    assert_eq!(e.kind, ErrorKind::Failed);
}

#[test]
fn null_capability_fails() {
    let mut msg = Message::new();
    let b = msg.init_struct(shape(0, 1));
    let r = msg.get_reader(b);
    let e = r.get_pointer_field(0).get_capability().err().unwrap();
    assert_eq!(e.kind, ErrorKind::Failed);
}

#[test]
fn list_read_as_capability_is_schema_violation() {
    let mut msg = Message::new();
    let b = msg.init_struct(shape(0, 1));
    msg.set_list(b, 0, vec![1]);
    let r = msg.get_reader(b);
    let e = r.get_pointer_field(0).get_capability().err().unwrap();
    assert_eq!(e.kind, ErrorKind::SchemaViolation);
}

#[test]
fn capability_read_as_list_is_schema_violation() {
    let mut msg = Message::new();
    let mut table = CapTable { caps: Vec::new() };
    let b = msg.init_struct(shape(0, 1));
    msg.set_capability(&mut table, b, 0, 5);
    let r = msg.get_reader(b);
    let e = <ListReader as FromPointerReader>::get_from_pointer(&r.get_pointer_field(0)).err().unwrap();
    assert_eq!(e.kind, ErrorKind::SchemaViolation);
}

#[test]
fn default_struct_reads_as_zero() {
    let msg = Message::new();
    let r = StructReader::null(&msg);
    assert_eq!(r.get_data_field(0), 0);
    assert!(!r.get_bool_field(3));
    assert!(r.get_pointer_field(0).get_list().ok().unwrap().len() == 0);
}

#[test]
fn copy_keeps_every_field_and_capability_identity() {
    let mut src = Message::new();
    let mut src_table = CapTable { caps: vec![100, 200, 300] };
    let b = src.init_struct(shape(2, 4));
    src.set_data_field(b, 0, 123);
    src.set_bool_field(b, 64, true);
    src.set_list(b, 0, vec![4, 5, 6]);
    src.set_capability(&mut src_table, b, 2, 999);
    src.set_pointer(b, 3, Pointer::Capability(1));

    let mut dst = Message::new();
    let mut dst_table = CapTable { caps: vec![7] };
    let mut r = src.get_reader(b);
    r.imbue(&src_table);
    let copied = dst.copy_struct(&mut dst_table, &r).ok().unwrap();
    assert_eq!(copied.index, 0);
    assert_eq!(dst_table.caps, vec![7, 999, 200]);

    let mut d = dst.get_reader(copied);
    d.imbue(&dst_table);
    assert_eq!(d.get_data_field(0), 123);
    assert!(d.get_bool_field(64));
    let l = d.get_pointer_field(0).get_list().ok().unwrap();
    assert_eq!((l.len(), l.get(0), l.get(1), l.get(2)), (3, 4, 5, 6));
    assert!(d.get_pointer_field(1).target.is_none());
    assert_eq!(d.get_pointer_field(2).get_capability().ok(), Some(999));
    assert_eq!(d.get_pointer_field(3).get_capability().ok(), Some(200));
}

#[test]
fn copy_with_unresolvable_capability_fails_and_changes_nothing() {
    let mut src = Message::new();
    let b = src.init_struct(shape(1, 1));
    src.set_pointer(b, 0, Pointer::Capability(3));
    let mut dst = Message::new();
    let mut dst_table = CapTable { caps: vec![1] };
    let r = src.get_reader(b);
    let e = dst.copy_struct(&mut dst_table, &r).err().unwrap();
    assert_eq!(e.kind, ErrorKind::Failed);
    assert_eq!(dst.structs.len(), 0);
    assert_eq!(dst_table.caps, vec![1]);
}

#[test]
fn list_iteration_yields_every_element_in_order() {
    let mut msg = Message::new();
    let b = msg.init_struct(shape(0, 1));
    msg.set_list(b, 0, vec![10, 20, 30]);
    let r = msg.get_reader(b);
    let l = r.get_pointer_field(0).get_list().ok().unwrap();
    let mut it: ListIter<ListReader, u64> = ListIter::new(l, l.len());
    assert_eq!(it.next(), Some(10));
    assert_eq!(it.next(), Some(20));
    assert_eq!(it.next(), Some(30));
    assert_eq!(it.next(), None);
    assert_eq!(it.next(), None);
    let mut again: ListIter<ListReader, u64> = ListIter::new(l, l.len());
    assert_eq!(again.collect_remaining(), vec![10, 20, 30]);
    assert_eq!(l.index_move(1), 20);
}

#[test]
fn empty_list_iteration_yields_nothing() {
    let l = ListReader { items: None };
    let mut it: ListIter<ListReader, u64> = ListIter::new(l, 0);
    assert_eq!(it.next(), None);
    assert_eq!(it.collect_remaining(), Vec::<u64>::new());
}

#[test]
fn list_builder_init_then_set() {
    let mut msg = Message::new();
    let b = msg.init_struct(shape(0, 2));
    let lb = <ListBuilder as FromPointerBuilder>::init_pointer(&mut msg, b, 1, 3);
    lb.set(&mut msg, 2, 55);
    lb.set(&mut msg, 0, 11);
    let r = msg.get_reader(b);
    let l = r.get_pointer_field(1).get_list().ok().unwrap();
    assert_eq!((l.len(), l.get(0), l.get(1), l.get(2)), (3, 11, 0, 55));
}

#[test]
fn list_builder_on_null_slot_starts_empty() {
    let mut msg = Message::new();
    let b = msg.init_struct(shape(0, 1));
    let lb = <ListBuilder as FromPointerBuilder>::get_from_pointer(&mut msg, b, 0).ok().unwrap();
    assert_eq!(lb, ListBuilder { owner: b, slot: 0 });
    let r = msg.get_reader(b);
    let l = r.get_pointer_field(0).get_list().ok().unwrap();
    assert_eq!(l.len(), 0);
    assert!(r.get_pointer_field(0).target.is_some());
}

#[test]
fn list_builder_on_capability_is_schema_violation() {
    let mut msg = Message::new();
    let mut table = CapTable { caps: Vec::new() };
    let b = msg.init_struct(shape(0, 1));
    msg.set_capability(&mut table, b, 0, 1);
    let e = ListBuilder::get(&mut msg, b, 0).err().unwrap();
    assert_eq!(e.kind, ErrorKind::SchemaViolation);
}

#[test]
fn set_pointer_builder_copies_a_struct() {
    let mut src = Message::new();
    let b = src.init_struct(shape(1, 1));
    src.set_data_field(b, 0, 9);
    src.set_list(b, 0, vec![3]);
    let mut dst = Message::new();
    dst.init_struct(shape(0, 0));
    let mut table = CapTable { caps: Vec::new() };
    let r = src.get_reader(b);
    let copied: StructBuilder =
        <StructReader as SetPointerBuilder<StructBuilder>>::set_pointer_builder(&mut dst, &mut table, r)
            .ok()
            .unwrap();
    assert_eq!(copied.index, 1);
    let d = dst.get_reader(copied);
    assert_eq!(d.get_data_field(0), 9);
    assert_eq!(d.get_pointer_field(0).get_list().ok().unwrap().get(0), 3);
}

#[test]
fn imbue_through_trait_attaches_table() {
    let mut msg = Message::new();
    let mut table = CapTable { caps: Vec::new() };
    let b = msg.init_struct(shape(1, 1));
    msg.set_data_field(b, 0, 4);
    msg.set_capability(&mut table, b, 0, 31);
    let mut r = <StructReader as FromStructReader>::new(msg.get_reader(b));
    <StructReader as Imbue>::imbue(&mut r, &table);
    assert_eq!(r.get_data_field(0), 4);
    assert_eq!(r.get_pointer_field(0).get_capability().ok(), Some(31));
}
