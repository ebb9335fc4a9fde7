use gossip_context::service::conclude_dispatch;
use gossip_context::{Block, Context, Event, NoService, PeerAddr, Service, ServiceError};
use std::sync::atomic::{AtomicUsize, Ordering};
use std::sync::mpsc::channel;

struct Failing;

impl Service<()> for Failing {
    fn process_event(
        &self,
        _ctx: &Context<(), Self>,
        _evt: &Event,
        _from: &PeerAddr,
    ) -> Result<(), ServiceError> {
        Err(ServiceError { message: "event refused: stale round".to_string() })
    }

    fn process_request(&self, _ctx: &Context<(), Self>, _data: Vec<u8>) -> Result<(), ServiceError> {
        Err(ServiceError { message: "request refused".to_string() })
    }
}

struct Recording {
    events: AtomicUsize,
    requests: AtomicUsize,
}

impl Service<u32> for Recording {
    fn process_event(
        &self,
        ctx: &Context<u32, Self>,
        evt: &Event,
        from: &PeerAddr,
    ) -> Result<(), ServiceError> {
        self.events.fetch_add(1, Ordering::SeqCst);
        if *ctx.get_socket() != 77 || *from != PeerAddr::v4(10, 0, 0, 2, 9002) {
            return Err(ServiceError { message: "wrong context or sender".to_string() });
        }
        if evt.payload != b"{\"n\":3}".to_vec() {
            return Err(ServiceError { message: "wrong event".to_string() });
        }
        let plan = ctx.propagate(evt);
        if plan.targets.len() != 2 {
            return Err(ServiceError { message: "wrong fan-out".to_string() });
        }
        match ctx.announce_block(&Block::new(evt.payload.clone())) {
            Ok(()) => Ok(()),
            Err(_) => Err(ServiceError { message: "pipeline gone".to_string() }),
        }
    }

    fn process_request(&self, _ctx: &Context<u32, Self>, data: Vec<u8>) -> Result<(), ServiceError> {
        self.requests.fetch_add(1, Ordering::SeqCst);
        if data == vec![1, 2, 3] {
            Ok(())
        } else {
            Err(ServiceError { message: format!("unexpected request of {} bytes", data.len()) })
        }
    }
}

fn peers() -> Vec<PeerAddr> {
    vec![
        PeerAddr::v4(10, 0, 0, 1, 9001),
        PeerAddr::v4(10, 0, 0, 2, 9002),
        PeerAddr::v4(10, 0, 0, 3, 9003),
    ]
}

#[test]
fn handle_event_without_handler_succeeds() {
    let (tx, rx) = channel();
    let ctx: Context<(), Failing> = Context::new((), PeerAddr::v4(10, 0, 0, 9, 9000), peers(), tx);
    let evt = Event::new(b"{}".to_vec());
    assert_eq!(ctx.handle_event(&evt, &PeerAddr::v4(10, 0, 0, 1, 9001)), Ok(()));
    assert!(rx.try_recv().is_err());
}

#[test]
fn handle_request_without_handler_succeeds() {
    let (tx, rx) = channel();
    let ctx: Context<(), Failing> = Context::new((), PeerAddr::v4(10, 0, 0, 9, 9000), peers(), tx);
    assert_eq!(ctx.handle_request(vec![9, 9, 9]), Ok(()));
    assert_eq!(ctx.handle_request(Vec::new()), Ok(()));
    assert!(rx.try_recv().is_err());
}

#[test]
fn handle_event_returns_the_error_of_the_handler_unchanged() {
    let (tx, _rx) = channel();
    let mut ctx = Context::new((), PeerAddr::v4(10, 0, 0, 9, 9000), peers(), tx);
    assert_eq!(ctx.register_event_handler(Failing), Ok(()));
    let evt = Event::new(b"{}".to_vec());
    assert_eq!(
        ctx.handle_event(&evt, &PeerAddr::v4(10, 0, 0, 1, 9001)),
        Err(ServiceError { message: "event refused: stale round".to_string() })
    );
}

#[test]
fn handle_request_returns_the_error_of_the_handler_unchanged() {
    let (tx, _rx) = channel();
    let mut ctx = Context::new((), PeerAddr::v4(10, 0, 0, 9, 9000), peers(), tx);
    assert_eq!(ctx.register_event_handler(Failing), Ok(()));
    assert_eq!(
        ctx.handle_request(vec![1]),
        Err(ServiceError { message: "request refused".to_string() })
    );
}

#[test]
fn handler_is_given_the_context_the_event_and_the_sender() {
    let (tx, rx) = channel();
    let mut ctx = Context::new(77u32, PeerAddr::v4(10, 0, 0, 9, 9000), peers(), tx);
    let service = Recording { events: AtomicUsize::new(0), requests: AtomicUsize::new(0) };
    assert_eq!(ctx.register_event_handler(service), Ok(()));
    let evt = Event::new(b"{\"n\":3}".to_vec());
    assert_eq!(ctx.handle_event(&evt, &PeerAddr::v4(10, 0, 0, 2, 9002)), Ok(()));
    assert_eq!(rx.try_recv(), Ok(Block::new(b"{\"n\":3}".to_vec())));
    assert_eq!(
        ctx.handle_event(&evt, &PeerAddr::v4(10, 0, 0, 3, 9003)),
        Err(ServiceError { message: "wrong context or sender".to_string() })
    );
}

#[test]
fn handler_is_given_the_bytes_of_the_request() {
    let (tx, _rx) = channel();
    let mut ctx = Context::new(77u32, PeerAddr::v4(10, 0, 0, 9, 9000), peers(), tx);
    let service = Recording { events: AtomicUsize::new(0), requests: AtomicUsize::new(0) };
    assert_eq!(ctx.register_event_handler(service), Ok(()));
    assert_eq!(ctx.handle_request(vec![1, 2, 3]), Ok(()));
    assert_eq!(
        ctx.handle_request(vec![4, 5]),
        Err(ServiceError { message: "unexpected request of 2 bytes".to_string() })
    );
}

#[test]
fn no_service_accepts_everything() {
    let (tx, rx) = channel();
    let mut ctx = Context::new((), PeerAddr::v4(10, 0, 0, 9, 9000), peers(), tx);
    assert_eq!(ctx.register_event_handler(NoService), Ok(()));
    assert_eq!(ctx.handle_event(&Event::new(vec![0x31]), &PeerAddr::v4(10, 0, 0, 1, 9001)), Ok(()));
    assert_eq!(ctx.handle_request(vec![0xff]), Ok(()));
    assert!(rx.try_recv().is_err());
}

#[test]
fn register_event_handler_keeps_addresses() {
    let (tx, _rx) = channel();
    let mut ctx = Context::new(5u8, PeerAddr::v4(10, 0, 0, 9, 9000), peers(), tx);
    assert_eq!(ctx.register_event_handler(NoService), Ok(()));
    assert_eq!(ctx.register_event_handler(NoService), Ok(()));
    assert_eq!(*ctx.get_addr(), PeerAddr::v4(10, 0, 0, 9, 9000));
    assert_eq!(*ctx.get_peers(), peers());
    assert_eq!(*ctx.get_socket(), 5u8);
}

#[test]
fn conclude_dispatch_passes_the_answer_through() {
    assert_eq!(conclude_dispatch(None), Ok(()));
    assert_eq!(conclude_dispatch(Some(Ok(()))), Ok(()));
    assert_eq!(
        conclude_dispatch(Some(Err(ServiceError { message: "no".to_string() }))),
        Err(ServiceError { message: "no".to_string() })
    );
}
