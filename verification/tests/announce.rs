use gossip_context::channel::conclude_announce;
use gossip_context::{AnnounceError, Block, Context, NoService, PeerAddr};
use std::sync::mpsc::channel;

fn block(producer: u8, serial: u8) -> Block {
    Block::new(vec![producer, serial, 0xb1])
}

#[test]
fn announce_block_delivers_the_block() {
    let (tx, rx) = channel();
    let ctx: Context<(), NoService> = Context::new((), PeerAddr::v4(127, 0, 0, 1, 9000), Vec::new(), tx);
    let b = Block::new(b"{\"height\":1}".to_vec());
    assert_eq!(ctx.announce_block(&b), Ok(()));
    assert_eq!(rx.try_recv(), Ok(Block::new(b"{\"height\":1}".to_vec())));
    assert!(rx.try_recv().is_err());
    assert_eq!(b, Block::new(b"{\"height\":1}".to_vec()));
}

#[test]
fn announce_block_sends_an_independent_copy() {
    let (tx, rx) = channel();
    let ctx: Context<(), NoService> = Context::new((), PeerAddr::v4(127, 0, 0, 1, 9000), Vec::new(), tx);
    let mut b = Block::new(vec![1, 2, 3]);
    assert_eq!(ctx.announce_block(&b), Ok(()));
    b.payload.push(4);
    assert_eq!(ctx.announce_block(&b), Ok(()));
    assert_eq!(rx.recv(), Ok(Block::new(vec![1, 2, 3])));
    assert_eq!(rx.recv(), Ok(Block::new(vec![1, 2, 3, 4])));
}

#[test]
fn announce_block_keeps_the_order_of_the_calls() {
    let (tx, rx) = channel();
    let ctx: Context<(), NoService> = Context::new((), PeerAddr::v4(127, 0, 0, 1, 9000), Vec::new(), tx);
    for serial in 0..50u8 {
        assert_eq!(ctx.announce_block(&block(0, serial)), Ok(()));
    }
    for serial in 0..50u8 {
        assert_eq!(rx.recv(), Ok(block(0, serial)));
    }
    assert!(rx.try_recv().is_err());
}

#[test]
fn announce_block_reports_a_vanished_receiver() {
    let (tx, rx) = channel();
    let ctx: Context<(), NoService> = Context::new((), PeerAddr::v4(127, 0, 0, 1, 9000), Vec::new(), tx);
    drop(rx);
    assert_eq!(
        ctx.announce_block(&block(3, 9)),
        Err(AnnounceError::Disconnected(block(3, 9)))
    );
}

#[test]
fn announce_block_from_ten_producers() {
    let (tx, rx) = channel();
    let ctx: Context<(), NoService> = Context::new((), PeerAddr::v4(127, 0, 0, 1, 9000), Vec::new(), tx);
    let shared = &ctx;
    let producers: Vec<Box<dyn Fn(u8) -> Result<(), AnnounceError> + '_>> = (0..10u8)
        .map(|producer| {
            let announce: Box<dyn Fn(u8) -> Result<(), AnnounceError> + '_> =
                Box::new(move |serial| shared.announce_block(&block(producer, serial)));
            announce
        })
        .collect();
    for serial in 0..100u8 {
        for announce in &producers {
            assert_eq!(announce(serial), Ok(()));
        }
    }
    drop(producers);
    drop(ctx);
    let received: Vec<Block> = rx.iter().collect();
    assert_eq!(received.len(), 1000);
    let mut next = [0u8; 10];
    for b in &received {
        assert_eq!(b.payload.len(), 3);
        let producer = b.payload[0] as usize;
        assert!(producer < 10);
        assert_eq!(b.payload[1], next[producer]);
        assert_eq!(b.payload[2], 0xb1);
        next[producer] += 1;
    }
    assert_eq!(next, [100u8; 10]);
}

#[test]
fn conclude_announce_names_each_failure() {
    assert_eq!(conclude_announce(Some(Ok(()))), Ok(()));
    assert_eq!(conclude_announce(None), Err(AnnounceError::Poisoned));
    assert_eq!(
        conclude_announce(Some(Err(block(1, 1)))),
        Err(AnnounceError::Disconnected(block(1, 1)))
    );
}

#[test]
fn duplicate_copies_the_bytes() {
    let b = Block::new(vec![9, 8, 7]);
    let copy = b.duplicate();
    assert_eq!(copy, b);
    assert_eq!(copy.payload, vec![9, 8, 7]);
    assert_eq!(Block::new(Vec::new()).duplicate().payload, Vec::<u8>::new());
}
