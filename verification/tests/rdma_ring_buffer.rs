use rdma_ring_buffer::communication_manager::CommunicationManager;
use rdma_ring_buffer::rdma_ring_buffer::acknowledged;
use rdma_ring_buffer::rdma_ring_buffer::announce;
use rdma_ring_buffer::rdma_ring_buffer::delivered;
use rdma_ring_buffer::rdma_ring_buffer::ExchangeError;
use rdma_ring_buffer::rdma_ring_buffer::Failure;
use rdma_ring_buffer::rdma_ring_buffer::Message;
use rdma_ring_buffer::rdma_ring_buffer::RingBuffer;

#[test]
fn owner_reads_what_it_wrote() {
    let mut ring = RingBuffer::<u32, 4>::new();
    assert_eq!(ring.avaliable_read(), 0);
    assert_eq!(ring.avaliable_write(), 4);
    assert_eq!(ring.write(&[1, 2, 3], 3), 3);
    assert_eq!(ring.avaliable_read(), 3);
    assert_eq!(ring.avaliable_write(), 1);
    let mut out = Vec::new();
    assert_eq!(ring.read(&mut out, 2), 2);
    assert_eq!(out, vec![1, 2]);
    assert_eq!(ring.avaliable_read(), 1);
    assert_eq!(ring.avaliable_write(), 3);
}

#[test]
fn owner_write_is_cut_to_the_free_slots() {
    let mut ring = RingBuffer::<u32, 4>::new_alloc();
    assert_eq!(ring.write(&[1, 2, 3, 4, 5, 6], 6), 4);
    assert_eq!(ring.write(&[7], 1), 0);
    assert_eq!(ring.write(&[7], 0), 0);
    let mut out = vec![0];
    assert_eq!(ring.read(&mut out, 0), 4);
    assert_eq!(out, vec![0, 1, 2, 3, 4]);
    assert_eq!(ring.read(&mut out, 0), 0);
    assert_eq!(ring.read(&mut out, 3), 0);
}

#[test]
fn owner_write_takes_only_the_size_asked() {
    let mut ring = RingBuffer::<u8, 8>::new();
    assert_eq!(ring.write(&[1, 2, 3, 4], 2), 2);
    let mut out = Vec::new();
    assert_eq!(ring.read(&mut out, 9), 2);
    assert_eq!(out, vec![1, 2]);
}

#[test]
fn owner_keeps_the_order_around_the_end() {
    let mut ring = RingBuffer::<u64, 3>::new();
    let mut out = Vec::new();
    let mut next: u64 = 0;
    let mut expected: Vec<u64> = Vec::new();
    for round in 0..50usize {
        let batch: Vec<u64> = (0..(round % 4) as u64).map(|offset| next + offset).collect();
        let written = ring.write(&batch, batch.len());
        assert_eq!(written, batch.len().min(3 - expected.len()));
        expected.extend_from_slice(&batch[..written]);
        next += written as u64;
        let before = out.len();
        let read = ring.read(&mut out, 1 + round % 2);
        assert_eq!(read, expected.len().min(1 + round % 2));
        assert_eq!(&out[before..], &expected[..read]);
        expected.drain(..read);
        assert_eq!(ring.avaliable_read(), expected.len());
    }
    let total = out.len() as u64;
    assert_eq!(out, (0..total).collect::<Vec<u64>>());
}

fn reads(messages: &[Message<u32>]) -> Vec<usize> {
    messages.iter().map(|message| match message { Message::Read(count) => *count, Message::Write { .. } => usize::MAX }).collect()
}

fn writes(messages: &[Message<u32>]) -> Vec<u32> {
    messages.iter().map(|message| match message { Message::Write { data } => *data, Message::Read(_) => u32::MAX }).collect()
}

#[test]
fn messages_of_a_reader_move_the_head() {
    assert_eq!(acknowledged::<u32>(&[], 0), Ok(0));
    assert_eq!(acknowledged::<u32>(&[Message::Read(2), Message::Read(0), Message::Read(1)], 3), Ok(3));
    assert_eq!(acknowledged::<u32>(&[Message::Read(2), Message::Read(2)], 3), Err(ExchangeError::Overrun));
    assert_eq!(
        acknowledged::<u32>(&[Message::Read(usize::MAX), Message::Read(usize::MAX)], usize::MAX),
        Err(ExchangeError::Overrun)
    );
    assert_eq!(
        acknowledged(&[Message::Read(9), Message::Write { data: 1u32 }], 3),
        Err(ExchangeError::Unexpected)
    );
}

#[test]
fn messages_of_a_writer_carry_the_elements() {
    let carried = [Message::Write { data: 7u32 }, Message::Write { data: 8 }];
    assert_eq!(delivered(&carried, 2), Ok(vec![7, 8]));
    assert_eq!(delivered(&carried, 1), Err(ExchangeError::Overrun));
    assert_eq!(delivered::<u32>(&[], 0), Ok(vec![]));
    assert_eq!(delivered(&[Message::Write { data: 7u32 }, Message::Read(1)], 9), Err(ExchangeError::Unexpected));
    assert_eq!(writes(&announce(&[4u32, 5, 6], 2)), vec![4, 5]);
    assert_eq!(announce(&[4u32, 5, 6], 0).len(), 0);
}

#[test]
fn mirrored_rings_stay_in_step() {
    let mut writer = RingBuffer::<u32, 4>::new();
    let mut reader = RingBuffer::<u32, 4>::new();
    let mut out = Vec::new();

    let (written, told) = writer.write_with(&[], &[1, 2, 3, 4, 5], 5).unwrap();
    assert_eq!(written, 4);
    assert_eq!(writes(&told), vec![1, 2, 3, 4]);
    assert_eq!(writer.avaliable_write(), 0);

    // What arrives with a read is there for the next one.
    let (read, notice) = reader.read_with(&told, &mut out, 0).unwrap();
    assert_eq!((read, notice.is_none()), (0, true));
    assert_eq!(reader.avaliable_read(), 4);
    let (read, notice) = reader.read_with(&[], &mut out, 3).unwrap();
    assert_eq!(read, 3);
    assert_eq!(out, vec![1, 2, 3]);
    let notice = [notice.unwrap()];
    assert_eq!(reads(&notice), vec![3]);

    // The room is counted before the peer's messages are taken.
    let (written, told) = writer.write_with(&notice, &[5, 6], 2).unwrap();
    assert_eq!(written, 0);
    assert_eq!(told.len(), 0);
    assert_eq!(writer.avaliable_read(), 1);
    let (written, told) = writer.write_with(&[], &[5, 6], 2).unwrap();
    assert_eq!(written, 2);
    let (read, _) = reader.read_with(&told, &mut out, 0).unwrap();
    assert_eq!(read, 1);
    let (read, _) = reader.read_with(&[], &mut out, 0).unwrap();
    assert_eq!(read, 2);
    assert_eq!(out, vec![1, 2, 3, 4, 5, 6]);
}

#[test]
fn wrong_messages_leave_the_ring() {
    let mut writer = RingBuffer::<u32, 4>::new();
    writer.write(&[1, 2], 2);
    assert_eq!(
        writer.write_with(&[Message::Write { data: 9 }], &[3], 1).err(),
        Some(ExchangeError::Unexpected)
    );
    assert_eq!(writer.write_with(&[Message::Read(4)], &[3], 1).err(), Some(ExchangeError::Overrun));
    assert_eq!(writer.avaliable_read(), 2);
    // Three are held once the third is written, and three may be told of.
    assert_eq!(writer.write_with(&[Message::Read(3)], &[3], 1).map(|sent| sent.0), Ok(1));
    assert_eq!(writer.avaliable_read(), 0);

    let mut reader = RingBuffer::<u32, 2>::new();
    let mut out = vec![0];
    reader.write(&[1, 2], 2);
    assert_eq!(reader.read_with(&[Message::Read(1)], &mut out, 0).err(), Some(ExchangeError::Unexpected));
    let three = [Message::Write { data: 3 }, Message::Write { data: 4 }, Message::Write { data: 5 }];
    assert_eq!(reader.read_with(&three, &mut out, 0).err(), Some(ExchangeError::Overrun));
    assert_eq!(out, vec![0]);
    assert_eq!(reader.avaliable_read(), 2);
    assert_eq!(reader.read_with(&three[..2], &mut out, 0).map(|sent| sent.0), Ok(2));
    assert_eq!(out, vec![0, 1, 2]);
    assert_eq!(reader.avaliable_read(), 2);
}

/// A carrier that hands out what was queued for it and keeps what it is given
/// to send, as numbers: a read as its count, a write as minus one.
struct Queue {
    incoming: Vec<Vec<usize>>,
    sent: Vec<Vec<usize>>,
    broken: bool,
}

impl CommunicationManager for Queue {
    type Error = &'static str;

    fn send_message<T: Copy>(&mut self, message: &[Message<T>]) -> Result<(), Self::Error> {
        if self.broken {
            return Err("the line is down");
        }
        self.sent.push(
            message
                .iter()
                .map(|message| match message {
                    Message::Read(count) => *count,
                    Message::Write { .. } => usize::MAX,
                })
                .collect(),
        );
        Ok(())
    }

    fn recv_message<T: Copy>(&mut self) -> Result<Vec<Message<T>>, Self::Error> {
        match self.incoming.pop() {
            Some(counts) => Ok(counts.into_iter().map(Message::Read).collect()),
            None => Err("nothing arrives"),
        }
    }

    fn try_recv_message<T: Copy>(&mut self) -> Result<Option<Vec<Message<T>>>, Self::Error> {
        Ok(self.incoming.pop().map(|counts| counts.into_iter().map(Message::Read).collect()))
    }
}

#[test]
fn writes_go_through_the_manager() {
    let mut manager = Queue { incoming: vec![vec![1, 1], vec![]], sent: vec![], broken: false };
    let mut ring = RingBuffer::<u32, 4>::new();
    assert!(matches!(ring.write_through(&mut manager, &[1, 2, 3], 3), Ok(3)));
    assert_eq!(manager.sent, vec![vec![usize::MAX; 3]]);
    assert!(matches!(ring.write_through(&mut manager, &[4, 5], 2), Ok(1)));
    assert_eq!(manager.sent.len(), 2);
    assert_eq!(manager.sent[1], vec![usize::MAX]);
    assert_eq!(ring.avaliable_read(), 2);
    assert!(matches!(ring.write_through(&mut manager, &[5], 1), Err(Failure::Manager("nothing arrives"))));
    assert_eq!(ring.avaliable_read(), 2);
    manager.incoming.push(vec![3]);
    assert!(matches!(
        ring.write_through(&mut manager, &[5], 0),
        Err(Failure::Exchange(ExchangeError::Overrun))
    ));
    manager.incoming.push(vec![]);
    manager.broken = true;
    assert!(matches!(ring.write_through(&mut manager, &[5], 1), Err(Failure::Manager("the line is down"))));
    assert_eq!(ring.avaliable_read(), 3);
    assert!(matches!(manager.try_recv_message::<u32>(), Ok(None)));
}

#[test]
fn reads_go_through_the_manager() {
    let mut manager = Queue { incoming: vec![vec![], vec![2], vec![]], sent: vec![], broken: false };
    let mut ring = RingBuffer::<u32, 4>::new();
    ring.write(&[7, 8, 9], 3);
    let mut out = Vec::new();
    assert!(matches!(ring.read_through(&mut manager, &mut out, 2), Ok(2)));
    assert_eq!(out, vec![7, 8]);
    assert_eq!(manager.sent, vec![vec![2]]);
    // The peer of a reader sends no counts.
    assert!(matches!(
        ring.read_through(&mut manager, &mut out, 0),
        Err(Failure::Exchange(ExchangeError::Unexpected))
    ));
    assert_eq!(out, vec![7, 8]);
    assert!(matches!(ring.read_through(&mut manager, &mut out, 0), Ok(1)));
    assert!(matches!(ring.read_through(&mut manager, &mut out, 0), Err(Failure::Manager(_))));
    assert_eq!(out, vec![7, 8, 9]);
    assert_eq!(manager.sent, vec![vec![2], vec![1]]);
}
