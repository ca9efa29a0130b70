use wgpu_rendering::{BufferUpdate, DynamicStorageBuffer};

fn is_power_of_two(n: u64) -> bool {
    n >= 1 && n & (n - 1) == 0
}

#[test]
fn concrete_growth_scenario() {
    let mut buffer: DynamicStorageBuffer<u64> = DynamicStorageBuffer::new();
    assert_eq!(buffer.capacity(), 4);
    assert_eq!(buffer.len(), 0);

    let three: Vec<u64> = vec![7, 8, 9];
    let update = buffer.set_new_data(&three);
    assert_eq!(update, BufferUpdate::InPlace);
    assert_eq!(buffer.len(), 3);
    assert_eq!(buffer.capacity(), 4);

    let ten: Vec<u64> = (0..10).collect();
    let update = buffer.set_new_data(&ten);
    assert_eq!(update, BufferUpdate::Reallocated { new_capacity: 16 });
    assert_eq!(buffer.len(), 10);
    assert_eq!(buffer.capacity(), 16);

    buffer.shrink_to_fit();
    assert_eq!(buffer.capacity(), 10);
    assert_eq!(buffer.len(), 10);
}

#[test]
fn growth_keeps_length_and_capacity_invariants() {
    let mut buffer: DynamicStorageBuffer<u32> = DynamicStorageBuffer::new();
    let initial_capacity = buffer.capacity();
    for len in [1usize, 2, 4, 5, 9, 17, 33, 100] {
        let records: Vec<u32> = (0..len as u32).collect();
        buffer.set_new_data(&records);
        assert_eq!(buffer.len() as usize, len);
        assert!(buffer.capacity() >= len as u64);
        if buffer.capacity() != initial_capacity {
            assert!(is_power_of_two(buffer.capacity()));
        }
    }
}

#[test]
fn no_premature_shrink() {
    let mut buffer: DynamicStorageBuffer<u16> = DynamicStorageBuffer::new();
    let eight: Vec<u16> = (0..8).collect();
    buffer.set_new_data(&eight);
    assert_eq!(buffer.capacity(), 8);

    for len in [2usize, 1, 0, 3, 6, 8] {
        let records: Vec<u16> = (0..len as u16).collect();
        let update = buffer.set_new_data(&records);
        assert_eq!(update, BufferUpdate::InPlace);
        assert_eq!(buffer.capacity(), 8);
        assert_eq!(buffer.len() as usize, len);
    }

    buffer.shrink_to_fit();
    assert_eq!(buffer.capacity(), 8);
    assert_eq!(buffer.len(), 8);
}

#[test]
fn shrink_keeps_live_prefix_bitwise() {
    for len in 0usize..=8 {
        let mut buffer: DynamicStorageBuffer<u64> = DynamicStorageBuffer::with_capacity(8);
        let records: Vec<u64> = (0..len as u64).map(|i| i.wrapping_mul(0x9E37_79B9)).collect();
        buffer.set_new_data(&records);
        let before = buffer.records().clone();
        buffer.shrink_to_fit();
        assert_eq!(buffer.capacity(), len as u64);
        assert_eq!(buffer.len() as usize, len);
        assert_eq!(buffer.records(), &before);
        assert_eq!(buffer.records(), &records);
    }
}

#[test]
fn overwrite_replaces_contents_exactly() {
    let mut buffer: DynamicStorageBuffer<u64> = DynamicStorageBuffer::new();
    buffer.set_new_data(&[10, 20, 30, 40]);
    buffer.set_new_data(&[5, 6]);
    assert_eq!(buffer.records(), &vec![5, 6]);
    assert_eq!(buffer.len(), 2);
    assert_eq!(buffer.capacity(), 4);
}

#[test]
fn growth_capacity_is_next_power_of_two() {
    for (len, expected) in [(5u64, 8u64), (6, 8), (9, 16), (16, 16), (17, 32), (1000, 1024)] {
        let mut buffer: DynamicStorageBuffer<u8> = DynamicStorageBuffer::with_capacity(4);
        let records: Vec<u8> = vec![0xAB; len as usize];
        let update = buffer.set_new_data(&records);
        assert_eq!(update, BufferUpdate::Reallocated { new_capacity: expected });
        assert_eq!(buffer.capacity(), expected);
    }
}

#[test]
fn growth_from_zero_capacity() {
    let mut buffer: DynamicStorageBuffer<u8> = DynamicStorageBuffer::with_capacity(0);
    assert_eq!(buffer.capacity(), 0);
    let update = buffer.set_new_data(&[42]);
    assert_eq!(update, BufferUpdate::Reallocated { new_capacity: 1 });
    assert_eq!(buffer.len(), 1);
    assert_eq!(buffer.capacity(), 1);
    assert_eq!(buffer.records(), &vec![42]);
}

#[test]
fn byte_capacity_scales_with_record_size() {
    assert_eq!(DynamicStorageBuffer::<u64>::item_to_byte_capacity(10), 80);
    assert_eq!(DynamicStorageBuffer::<[u32; 4]>::item_to_byte_capacity(3), 48);
    assert_eq!(DynamicStorageBuffer::<u8>::item_to_byte_capacity(0), 0);
}
