use tangara::context::Ptr;
use tangara::marshal::{
    args_size, check_result, slot_size, ArgBuffer, ArgReader, NullResult, PTR_SIZE,
};
use tangara::model::{ArgumentKind, Value};

#[test]
fn marshaling_round_trip() {
    let this = Ptr { addr: 0x7ffd_1234_5678 };
    let mut buffer = ArgBuffer::new();
    buffer.push_ptr(this);
    buffer.push_u32(5);
    assert_eq!(buffer.size(), 12);

    let mut reader = ArgReader::new(buffer.into_bytes());
    assert_eq!(reader.read_ptr(), Some(this));
    assert_eq!(reader.position(), 8);
    assert_eq!(reader.read_u32(), Some(5));
    assert_eq!(reader.position(), 12);
    assert_eq!(reader.read_u32(), None);
    assert_eq!(reader.position(), 12);
}

#[test]
fn slots_lie_one_after_the_other() {
    let mut buffer = ArgBuffer::new();
    buffer.push_u32(0x0403_0201);
    buffer.push_u64(0x0c0b_0a09_0807_0605);
    buffer.push_ptr(Ptr { addr: 0x0d });
    assert_eq!(
        buffer.into_bytes(),
        vec![1, 2, 3, 4, 5, 6, 7, 8, 9, 10, 11, 12, 13, 0, 0, 0, 0, 0, 0, 0]
    );
}

#[test]
fn reading_stops_where_the_buffer_ends() {
    let mut reader = ArgReader::new(vec![1, 2, 3]);
    assert_eq!(reader.read_u32(), None);
    assert_eq!(reader.read_u64(), None);
    assert_eq!(reader.read_ptr(), None);
    assert_eq!(reader.position(), 0);

    let mut reader = ArgReader::new(vec![1, 0, 0, 0, 2]);
    assert_eq!(reader.read_u32(), Some(1));
    assert_eq!(reader.read_u32(), None);
    assert_eq!(reader.position(), 4);
}

#[test]
fn reading_in_another_order_reads_other_values() {
    let mut buffer = ArgBuffer::new();
    buffer.push_u32(1);
    buffer.push_u32(2);
    let mut reader = ArgReader::new(buffer.into_bytes());
    assert_eq!(reader.read_u64(), Some(0x0000_0002_0000_0001));
}

#[test]
fn the_slot_of_an_argument() {
    assert_eq!(PTR_SIZE, 8);
    assert_eq!(slot_size(&ArgumentKind::Default, 4), 4);
    assert_eq!(slot_size(&ArgumentKind::DefaultValue(Value::Int(3)), 2), 2);
    assert_eq!(slot_size(&ArgumentKind::Out, 4), 8);
    assert_eq!(slot_size(&ArgumentKind::Ref, 4), 8);
    assert_eq!(slot_size(&ArgumentKind::In, 100), 8);
}

#[test]
fn the_size_of_a_buffer() {
    assert_eq!(args_size(&vec![]), Some(0));
    assert_eq!(args_size(&vec![8, 4]), Some(12));
    assert_eq!(args_size(&vec![usize::MAX, 0]), Some(usize::MAX));
    assert_eq!(args_size(&vec![usize::MAX, 1]), None);
    assert_eq!(args_size(&vec![1, usize::MAX, 7]), None);
}

#[test]
fn a_null_result_is_an_error() {
    assert_eq!(check_result(Ptr::null()), Err(NullResult));
    assert_eq!(check_result(Ptr { addr: 0 }), Err(NullResult));
    let result = Ptr { addr: 0x5000 };
    assert_eq!(check_result(result), Ok(result));
}
