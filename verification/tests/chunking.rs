use virtual_mic::chunking::ChunkBuffer;

#[test]
fn chunk_buffer_hands_out_whole_blocks_in_order() {
    let mut buf = ChunkBuffer::new(4);
    assert!(buf.push(&[1, 2, 3]).is_empty());
    let blocks = buf.push(&[4, 5, 6, 7, 8, 9]);
    assert_eq!(blocks, vec![vec![1, 2, 3, 4], vec![5, 6, 7, 8]]);
    assert_eq!(buf.take_padded(0), Some(vec![9, 0, 0, 0]));
    assert_eq!(buf.take_padded(0), None);
}

#[test]
fn chunk_buffer_empty_push_and_exact_blocks() {
    let mut buf = ChunkBuffer::new(2);
    assert!(buf.push(&[]).is_empty());
    assert_eq!(buf.push(&[1.5f32, 2.5, 3.5, 4.5]), vec![vec![1.5, 2.5], vec![3.5, 4.5]]);
    assert_eq!(buf.take_padded(0.0), None);
}

#[test]
fn chunk_buffer_block_of_one() {
    let mut buf = ChunkBuffer::new(1);
    assert_eq!(buf.push(&[7u8, 8]), vec![vec![7], vec![8]]);
    assert_eq!(buf.take_padded(0), None);
}
