use rdma_ring_buffer::rdma_controller::config::Config;
use rdma_ring_buffer::rdma_controller::config::ConnectionType;
use rdma_ring_buffer::rdma_controller::config::ServerAddress;
use rdma_ring_buffer::rdma_controller::data_plane::Direction;
use rdma_ring_buffer::rdma_controller::data_plane::Phase;
use rdma_ring_buffer::rdma_controller::data_plane::Transfer;
use rdma_ring_buffer::rdma_controller::data_plane::Work;
use rdma_ring_buffer::rdma_controller::data_plane::DATA_WR_ID;
use rdma_ring_buffer::rdma_controller::handshake::RdmaHandShake;
use rdma_ring_buffer::rdma_controller::handshake::HANDSHAKE_WR_ID;
use rdma_ring_buffer::rdma_controller::memory_region::MemoryRegion;
use rdma_ring_buffer::rdma_controller::memory_region::Registration;
use rdma_ring_buffer::rdma_controller::qp_info::DestQpInfo;
use rdma_ring_buffer::rdma_controller::queue_pair::AccessFlags;
use rdma_ring_buffer::rdma_controller::queue_pair::QpState;
use rdma_ring_buffer::rdma_controller::queue_pair::QpType;
use rdma_ring_buffer::rdma_controller::queue_pair::QueuePair;
use rdma_ring_buffer::rdma_controller::send::scatter_gather;
use rdma_ring_buffer::rdma_controller::send::RecvRequest;
use rdma_ring_buffer::rdma_controller::send::SendFlagBuilder;
use rdma_ring_buffer::rdma_controller::send::SendFlags;
use rdma_ring_buffer::rdma_controller::send::SendRequest;
use rdma_ring_buffer::rdma_controller::send::Sge;
use rdma_ring_buffer::rdma_controller::work_completion::scan;
use rdma_ring_buffer::rdma_controller::work_completion::FailedCompletion;
use rdma_ring_buffer::rdma_controller::work_completion::Opcode;
use rdma_ring_buffer::rdma_controller::work_completion::Verdict;
use rdma_ring_buffer::rdma_controller::work_completion::WorkCompletion;
use rdma_ring_buffer::rdma_controller::select_device;
use rdma_ring_buffer::rdma_controller::Action;
use rdma_ring_buffer::rdma_controller::ConnectionError;
use rdma_ring_buffer::rdma_controller::IbResource;
use rdma_ring_buffer::rdma_controller::Outcome;
use rdma_ring_buffer::rdma_controller::RdmaError;
use rdma_ring_buffer::rdma_controller::Stage;
use rdma_ring_buffer::rdma_controller::State;

const NO_FLAGS: SendFlags = SendFlags { signaled: false, fenced: false, inline: false, solicited: false };

fn done(wr_id: u64, opcode: Opcode) -> WorkCompletion {
    WorkCompletion { wr_id, status: 0, success: true, opcode, vendor_err: 0, byte_len: 8 }
}

fn failed(wr_id: u64, opcode: Opcode, status: u32, vendor_err: u32) -> WorkCompletion {
    WorkCompletion { wr_id, status, success: false, opcode, vendor_err, byte_len: 0 }
}

fn peer() -> DestQpInfo {
    DestQpInfo { lid: 7, qpn: 0x0102_0304, psn: 0x0a0b_0c0d, gid: [0xfe, 0x80, 0, 0, 0, 0, 0, 0, 1, 2, 3, 4, 5, 6, 7, 8] }
}

fn local_peer() -> DestQpInfo {
    DestQpInfo { lid: 3, qpn: 17, psn: 0, gid: [0; 16] }
}

fn server(gid_index: Option<i32>) -> IbResource {
    let mut resource = IbResource::new();
    let config = Config {
        dev_name: "mlx5_0".to_owned(),
        gid_index,
        connection_type: ConnectionType::Server { port: 4000, message_size: 64 },
    };
    assert_eq!(resource.setup_ib(config), Ok(()));
    resource
}

fn client(gid_index: Option<i32>) -> IbResource {
    let mut resource = IbResource::new();
    let config = Config {
        dev_name: "mlx5_0".to_owned(),
        gid_index,
        connection_type: ConnectionType::Client {
            server_addr: ServerAddress::V4 { a: 10, b: 0, c: 0, d: 2 },
            port: 4000,
            message_size: 64,
        },
    };
    assert_eq!(resource.setup_ib(config), Ok(()));
    resource
}

/// A device list in which the configured device is the second.
fn devices() -> Outcome {
    Outcome::DeviceList { names: Some(vec!["mlx5_1".to_owned(), "mlx5_0".to_owned(), "mlx5_0".to_owned()]) }
}

/// Reports success for the first `steps` steps after the device list was read.
fn open(resource: &mut IbResource, steps: usize) {
    resource.handle(devices()).unwrap();
    for _ in 0..steps {
        resource.handle(Outcome::Handle { found: true }).unwrap();
    }
}

/// Reports success for the steps up to and including the creation of the queue
/// pair.
fn create_objects(resource: &mut IbResource) {
    assert!(matches!(resource.action(), Action::GetDeviceList));
    resource.handle(devices()).unwrap();
    assert!(matches!(resource.action(), Action::OpenDevice { device: 1 }));
    resource.handle(Outcome::Handle { found: true }).unwrap();
    assert!(matches!(resource.action(), Action::AllocPd));
    resource.handle(Outcome::Handle { found: true }).unwrap();
    assert!(matches!(resource.action(), Action::QueryPort { port_num: 1 }));
    resource.handle(Outcome::Port { ret: 0, active: true, lid: 9 }).unwrap();
    assert!(matches!(resource.action(), Action::QueryDevice));
    resource.handle(Outcome::Code { ret: 0 }).unwrap();
    assert!(matches!(resource.action(), Action::CreateCq { capacity: 2 }));
    resource.handle(Outcome::Handle { found: true }).unwrap();
    assert!(matches!(
        resource.action(),
        Action::CreateQp {
            qp_type: QpType::ReliableConnected,
            max_send_wr: 8192,
            max_recv_wr: 8192,
            max_send_sge: 1,
            max_recv_sge: 1
        }
    ));
    resource.handle(Outcome::Created { found: true, qp_num: 77 }).unwrap();
}

fn modify_all(resource: &mut IbResource) {
    for expected in [QpState::Init, QpState::Rtr, QpState::Rts] {
        assert_eq!(resource.stage(), Stage::ModifyQp);
        match resource.action() {
            Action::ModifyQp { modification } => {
                assert_eq!(modification.attr.qp_state, expected);
                assert!(modification.mask.state);
            }
            _ => panic!("a modification is due"),
        }
        resource.handle(Outcome::Code { ret: 0 }).unwrap();
        assert_eq!(resource.qp_state(), expected);
    }
}

fn shake_hands(resource: &mut IbResource) {
    match resource.action() {
        Action::RegisterMemory { registration } => {
            assert_eq!(registration.length, 2);
            assert_eq!(
                registration.access,
                AccessFlags { local_write: true, remote_write: true, remote_read: true, remote_atomic: false }
            );
        }
        _ => panic!("the handshake registers its bytes first"),
    }
    let region = MemoryRegion::registered(true, 0x1000, 2, 55).unwrap();
    resource.handle(Outcome::Registered { region: Some(region) }).unwrap();
    match resource.action() {
        Action::PostSend { send, .. } => {
            assert_eq!(send.wr_id, 1);
            assert_eq!(send.sge, Sge { addr: 0x1000, length: 1, lkey: 55 });
            assert_eq!(send.flags, SendFlags { signaled: true, ..NO_FLAGS });
        }
        _ => panic!("the send is posted first"),
    }
    resource.handle(Outcome::Code { ret: 0 }).unwrap();
    match resource.action() {
        Action::PostRecv { recv } => {
            assert_eq!(recv, RecvRequest { wr_id: 1, sge: Sge { addr: 0x1001, length: 1, lkey: 55 } });
        }
        _ => panic!("the receive is posted second"),
    }
    resource.handle(Outcome::Code { ret: 0 }).unwrap();
    assert!(matches!(resource.action(), Action::PollCq { batch: 16 }));
    resource.handle(Outcome::Polled { batch: vec![] }).unwrap();
    assert_eq!(resource.stage(), Stage::PollCq);
    resource.handle(Outcome::Polled { batch: vec![done(1, Opcode::Send)] }).unwrap();
    assert_eq!(resource.stage(), Stage::PollCq);
    assert_eq!(resource.state(), State::Init);
    resource.handle(Outcome::Polled { batch: vec![done(1, Opcode::Recv)] }).unwrap();
}

#[test]
fn server_reads_the_peer_before_it_writes() {
    let mut resource = server(Some(1));
    assert_eq!(resource.dev_name(), "mlx5_0");
    create_objects(&mut resource);
    assert!(matches!(resource.action(), Action::Listen { port: 4000 }));
    resource.handle(Outcome::Link { up: true }).unwrap();
    assert!(matches!(resource.action(), Action::ReceiveInfo { length: 26 }));
    resource.handle(Outcome::Info { info: Some(peer()) }).unwrap();
    assert!(matches!(resource.action(), Action::QueryGid { port_num: 1, index: 1 }));
    let gid = [0xfe, 0x80, 0, 0, 0, 0, 0, 0, 9, 9, 9, 9, 9, 9, 9, 9];
    resource.handle(Outcome::Gid { ret: 0, gid }).unwrap();
    match resource.action() {
        Action::SendInfo { info } => {
            assert_eq!((info.lid, info.qpn, info.psn, info.gid), (9, 77, 0, gid));
        }
        _ => panic!("the server writes its record after it has read the peer's"),
    }
    resource.handle(Outcome::Link { up: true }).unwrap();
    assert_eq!(resource.qp_state(), QpState::Reset);
    modify_all(&mut resource);
    shake_hands(&mut resource);
    assert_eq!(resource.stage(), Stage::Connected);
    assert_eq!(resource.state(), State::Connected);
    assert!(matches!(resource.action(), Action::Rest));
    assert_eq!(resource.peer().unwrap().qpn, peer().qpn);
}

#[test]
fn client_writes_before_it_reads_the_peer() {
    let mut resource = client(Some(3));
    create_objects(&mut resource);
    assert!(matches!(resource.action(), Action::QueryGid { port_num: 1, index: 3 }));
    resource.handle(Outcome::Gid { ret: 0, gid: [1; 16] }).unwrap();
    assert!(matches!(
        resource.action(),
        Action::Dial { server_addr: ServerAddress::V4 { a: 10, b: 0, c: 0, d: 2 }, port: 4000 }
    ));
    resource.handle(Outcome::Link { up: true }).unwrap();
    assert!(matches!(resource.action(), Action::SendInfo { .. }));
    resource.handle(Outcome::Link { up: true }).unwrap();
    assert!(matches!(resource.action(), Action::ReceiveInfo { length: 26 }));
    resource.handle(Outcome::Info { info: Some(peer()) }).unwrap();
    modify_all(&mut resource);
    shake_hands(&mut resource);
    assert_eq!(resource.state(), State::Connected);
}

#[test]
fn no_gid_is_asked_for_without_an_index() {
    let mut resource = client(None);
    create_objects(&mut resource);
    assert!(matches!(resource.action(), Action::Dial { .. }));
    let mut listening = server(None);
    create_objects(&mut listening);
    listening.handle(Outcome::Link { up: true }).unwrap();
    listening.handle(Outcome::Info { info: Some(peer()) }).unwrap();
    match listening.action() {
        Action::SendInfo { info } => assert_eq!(info.gid, [0; 16]),
        _ => panic!("the record is written next"),
    }
}

#[test]
fn failed_step_leaves_the_state() {
    let mut resource = server(None);
    assert_eq!(resource.state(), State::Init);
    assert_eq!(resource.handle(Outcome::DeviceList { names: None }), Err(RdmaError::GetIbDeviceError));
    assert_eq!(resource.stage(), Stage::Failed);
    assert_eq!(resource.state(), State::Init);
    // Nothing more is asked of the device, and nothing more is taken.
    assert!(matches!(resource.action(), Action::Rest));
    assert_eq!(resource.handle(Outcome::Handle { found: true }), Err(RdmaError::UnexpectedOutcome));
    assert_eq!(resource.stage(), Stage::Failed);
    assert_eq!(resource.state(), State::Init);
}

#[test]
fn named_device_is_opened() {
    let names = |list: &[&str]| Outcome::DeviceList { names: Some(list.iter().map(|name| name.to_string()).collect()) };
    let mut only = server(None);
    only.handle(names(&["mlx5_0"])).unwrap();
    assert!(matches!(only.action(), Action::OpenDevice { device: 0 }));
    let mut last = server(None);
    last.handle(names(&["rocep152s0f0", "mlx5_1", "mlx5_0"])).unwrap();
    assert!(matches!(last.action(), Action::OpenDevice { device: 2 }));
    let mut absent = server(None);
    assert_eq!(absent.handle(names(&["mlx5_1", "mlx5_00", "mlx5"])), Err(RdmaError::NoSuchDevice));
    assert_eq!(absent.stage(), Stage::Failed);
    let mut empty = server(None);
    assert_eq!(empty.handle(names(&[])), Err(RdmaError::NoSuchDevice));
    let wanted = "mlx5_0".to_owned();
    assert_eq!(select_device(&["a".to_owned(), wanted.clone(), wanted.clone()], &wanted), Some(1));
    assert_eq!(select_device(&["a".to_owned()], &wanted), None);
}

#[test]
fn each_step_has_its_error() {
    let mut resource = server(None);
    assert_eq!(resource.handle(Outcome::Handle { found: true }), Err(RdmaError::UnexpectedOutcome));

    let mut resource = server(None);
    open(&mut resource, 0);
    assert_eq!(resource.handle(Outcome::Handle { found: false }), Err(RdmaError::OpenIbDeviceError));

    let mut resource = server(None);
    open(&mut resource, 1);
    assert_eq!(resource.handle(Outcome::Handle { found: false }), Err(RdmaError::AllocPdError));

    let mut resource = server(None);
    open(&mut resource, 2);
    assert_eq!(
        resource.handle(Outcome::Port { ret: -5, active: true, lid: 0 }),
        Err(RdmaError::QueryPortError(-5))
    );

    let mut resource = server(None);
    open(&mut resource, 2);
    assert_eq!(resource.handle(Outcome::Port { ret: 0, active: false, lid: 0 }), Err(RdmaError::PortNotActive));

    let mut resource = server(None);
    open(&mut resource, 2);
    resource.handle(Outcome::Port { ret: 0, active: true, lid: 1 }).unwrap();
    assert_eq!(resource.handle(Outcome::Code { ret: 22 }), Err(RdmaError::QueryDeviceError(22)));

    let mut resource = server(None);
    open(&mut resource, 2);
    resource.handle(Outcome::Port { ret: 0, active: true, lid: 1 }).unwrap();
    resource.handle(Outcome::Code { ret: 0 }).unwrap();
    assert_eq!(resource.handle(Outcome::Handle { found: false }), Err(RdmaError::CreateCqError));

    let mut resource = server(None);
    open(&mut resource, 2);
    resource.handle(Outcome::Port { ret: 0, active: true, lid: 1 }).unwrap();
    resource.handle(Outcome::Code { ret: 0 }).unwrap();
    resource.handle(Outcome::Handle { found: true }).unwrap();
    assert_eq!(resource.handle(Outcome::Created { found: false, qp_num: 0 }), Err(RdmaError::CreateQpError));
    assert_eq!(resource.state(), State::Init);
}

#[test]
fn exchange_errors_name_the_side() {
    let mut listening = server(None);
    create_objects(&mut listening);
    assert_eq!(
        listening.handle(Outcome::Link { up: false }),
        Err(RdmaError::Connection(ConnectionError::TcpListenerError))
    );
    let mut dialing = client(None);
    create_objects(&mut dialing);
    assert_eq!(
        dialing.handle(Outcome::Link { up: false }),
        Err(RdmaError::Connection(ConnectionError::TcpStreamError))
    );
    let mut truncated = server(None);
    create_objects(&mut truncated);
    truncated.handle(Outcome::Link { up: true }).unwrap();
    assert_eq!(truncated.handle(Outcome::Info { info: DestQpInfo::from_bytes(&[0; 25]) }), Err(RdmaError::PeerMismatch));
    let mut no_gid = client(Some(1));
    create_objects(&mut no_gid);
    assert_eq!(no_gid.handle(Outcome::Gid { ret: 1, gid: [0; 16] }), Err(RdmaError::QueryGidError(1)));
    let mut refused = client(Some(1));
    create_objects(&mut refused);
    assert_eq!(refused.handle(Outcome::Gid { ret: -1, gid: [9; 16] }), Err(RdmaError::QueryGidError(-1)));
    assert_eq!(refused.stage(), Stage::Failed);
}

#[test]
fn failed_modification_names_both_states() {
    let mut resource = client(None);
    create_objects(&mut resource);
    resource.handle(Outcome::Link { up: true }).unwrap();
    resource.handle(Outcome::Link { up: true }).unwrap();
    resource.handle(Outcome::Info { info: Some(peer()) }).unwrap();
    resource.handle(Outcome::Code { ret: 0 }).unwrap();
    assert_eq!(
        resource.handle(Outcome::Code { ret: 22 }),
        Err(RdmaError::ModifyQpError { from_state: QpState::Init, to_state: QpState::Rtr })
    );
    assert_eq!(resource.qp_state(), QpState::Init);
    assert_eq!(resource.state(), State::Init);
}

#[test]
fn handshake_failures_are_fatal() {
    let mut resource = client(None);
    create_objects(&mut resource);
    resource.handle(Outcome::Link { up: true }).unwrap();
    resource.handle(Outcome::Link { up: true }).unwrap();
    resource.handle(Outcome::Info { info: Some(peer()) }).unwrap();
    modify_all(&mut resource);
    assert_eq!(resource.handle(Outcome::Registered { region: None }), Err(RdmaError::RegMrError));

    let mut resource = client(None);
    create_objects(&mut resource);
    resource.handle(Outcome::Link { up: true }).unwrap();
    resource.handle(Outcome::Link { up: true }).unwrap();
    resource.handle(Outcome::Info { info: Some(peer()) }).unwrap();
    modify_all(&mut resource);
    let small = MemoryRegion::registered(true, 0x1000, 1, 55).unwrap();
    assert_eq!(resource.handle(Outcome::Registered { region: Some(small) }), Err(RdmaError::RegMrError));

    let mut resource = client(None);
    create_objects(&mut resource);
    resource.handle(Outcome::Link { up: true }).unwrap();
    resource.handle(Outcome::Link { up: true }).unwrap();
    resource.handle(Outcome::Info { info: Some(peer()) }).unwrap();
    modify_all(&mut resource);
    let region = MemoryRegion::registered(true, 0x1000, 2, 55).unwrap();
    resource.handle(Outcome::Registered { region: Some(region) }).unwrap();
    assert_eq!(resource.handle(Outcome::Code { ret: 12 }), Err(RdmaError::PostSendError(12)));

    let mut resource = client(None);
    create_objects(&mut resource);
    resource.handle(Outcome::Link { up: true }).unwrap();
    resource.handle(Outcome::Link { up: true }).unwrap();
    resource.handle(Outcome::Info { info: Some(peer()) }).unwrap();
    modify_all(&mut resource);
    resource.handle(Outcome::Registered { region: Some(region) }).unwrap();
    resource.handle(Outcome::Code { ret: 0 }).unwrap();
    assert_eq!(resource.handle(Outcome::Code { ret: 12 }), Err(RdmaError::PostRecvError(12)));

    let mut resource = client(None);
    create_objects(&mut resource);
    resource.handle(Outcome::Link { up: true }).unwrap();
    resource.handle(Outcome::Link { up: true }).unwrap();
    resource.handle(Outcome::Info { info: Some(peer()) }).unwrap();
    modify_all(&mut resource);
    resource.handle(Outcome::Registered { region: Some(region) }).unwrap();
    resource.handle(Outcome::Code { ret: 0 }).unwrap();
    resource.handle(Outcome::Code { ret: 0 }).unwrap();
    assert_eq!(
        resource.handle(Outcome::Polled { batch: vec![done(1, Opcode::Send), failed(1, Opcode::Recv, 5, 9)] }),
        Err(RdmaError::WorkCompletionError(FailedCompletion { wr_id: 1, opcode: Opcode::Recv, status: 5, vendor_err: 9 }))
    );
    assert_eq!(resource.state(), State::Init);
}

#[test]
fn setup_is_asked_for_once() {
    let mut resource = IbResource::new();
    assert_eq!(resource.stage(), Stage::Idle);
    assert_eq!(resource.state(), State::Init);
    assert!(matches!(resource.action(), Action::Rest));
    let again = Config {
        dev_name: "other".to_owned(),
        gid_index: None,
        connection_type: ConnectionType::Server { port: 1, message_size: 1 },
    };
    let mut begun = server(None);
    assert_eq!(begun.setup_ib(again), Err(RdmaError::UnexpectedOutcome));
    assert_eq!(begun.dev_name(), "mlx5_0");
    assert_eq!(begun.stage(), Stage::GetDeviceList);
}

#[test]
fn queue_pair_passes_through_its_states_in_order() {
    let mut qp = QueuePair::new();
    assert_eq!(qp.state(), QpState::Reset);
    assert_eq!(
        qp.modified(-1),
        Err(RdmaError::ModifyQpError { from_state: QpState::Reset, to_state: QpState::Init })
    );
    assert_eq!(qp.state(), QpState::Reset);
    assert_eq!(qp.modified(0), Ok(()));
    assert_eq!(qp.state(), QpState::Init);
    assert_eq!(qp.modified(0), Ok(()));
    assert_eq!(qp.state(), QpState::Rtr);
    assert_eq!(
        qp.modified(1),
        Err(RdmaError::ModifyQpError { from_state: QpState::Rtr, to_state: QpState::Rts })
    );
    assert_eq!(qp.modified(0), Ok(()));
    assert_eq!(qp.state(), QpState::Rts);
    assert_eq!(qp.modified(0), Ok(()));
    assert_eq!(qp.state(), QpState::Rts);
    assert!(qp.next_modification(0, 1, &peer()).is_none());
    assert_eq!(QpState::Reset.successor(), Some(QpState::Init));
    assert_eq!(QpState::Rts.successor(), None);
}

#[test]
fn modifications_carry_the_connection_parameters() {
    let mut qp = QueuePair::new();
    let init = qp.next_modification(0, 1, &peer()).unwrap();
    assert_eq!(init.attr.qp_state, QpState::Init);
    assert_eq!(init.attr.pkey_index, 0);
    assert_eq!(init.attr.port_num, 1);
    assert_eq!(
        init.attr.qp_access_flags,
        AccessFlags { local_write: true, remote_write: true, remote_read: true, remote_atomic: true }
    );
    assert!(init.mask.state && init.mask.pkey_index && init.mask.port && init.mask.access_flags);
    assert!(!init.mask.av && !init.mask.timeout && !init.mask.dest_qpn);

    qp.modified(0).unwrap();
    let rtr = qp.next_modification(0, 1, &peer()).unwrap();
    assert_eq!(rtr.attr.qp_state, QpState::Rtr);
    assert_eq!(rtr.attr.path_mtu, 4096);
    assert_eq!(rtr.attr.dest_qp_num, 0x0102_0304);
    assert_eq!(rtr.attr.rq_psn, 0x0a0b_0c0d);
    assert_eq!(rtr.attr.max_dest_rd_atomic, 1);
    assert_eq!(rtr.attr.min_rnr_timer, 12);
    assert_eq!(rtr.attr.ah_attr.dlid, 7);
    assert_eq!(rtr.attr.ah_attr.sl, 0);
    assert_eq!(rtr.attr.ah_attr.src_path_bits, 0);
    assert_eq!(rtr.attr.ah_attr.port_num, 1);
    let route = rtr.attr.ah_attr.global_route.unwrap();
    assert_eq!(route.dgid, peer().gid);
    assert_eq!((route.sgid_index, route.hop_limit, route.traffic_class), (0, 1, 0));
    assert!(rtr.mask.state && rtr.mask.av && rtr.mask.path_mtu && rtr.mask.dest_qpn);
    assert!(rtr.mask.rq_psn && rtr.mask.max_dest_rd_atomic && rtr.mask.min_rnr_timer);
    assert!(!rtr.mask.port && !rtr.mask.sq_psn);

    qp.modified(0).unwrap();
    let rts = qp.next_modification(0, 1, &peer()).unwrap();
    assert_eq!(rts.attr.qp_state, QpState::Rts);
    assert_eq!(rts.attr.timeout, 14);
    assert_eq!(rts.attr.retry_cnt, 7);
    assert_eq!(rts.attr.rnr_retry, 7);
    assert_eq!(rts.attr.sq_psn, 0x0a0b_0c0d);
    assert_eq!(rts.attr.max_rd_atomic, 1);
    assert!(rts.mask.state && rts.mask.timeout && rts.mask.retry_cnt && rts.mask.rnr_retry);
    assert!(rts.mask.sq_psn && rts.mask.max_qp_rd_atomic);
    assert!(!rts.mask.av && !rts.mask.path_mtu);
}

#[test]
fn zero_gid_gets_no_global_route() {
    assert!(!local_peer().is_global());
    assert!(peer().is_global());
    let mut only_last = local_peer();
    only_last.gid[15] = 1;
    assert!(only_last.is_global());
    let mut only_prefix = local_peer();
    only_prefix.gid[0] = 0xfe;
    assert!(only_prefix.is_global());
    let mut qp = QueuePair::new();
    qp.modified(0).unwrap();
    let rtr = qp.next_modification(0, 1, &local_peer()).unwrap();
    assert!(rtr.attr.ah_attr.global_route.is_none());
    assert_eq!(rtr.attr.ah_attr.dlid, 3);
}

#[test]
fn identifier_record_round_trips() {
    let bytes = peer().to_bytes();
    assert_eq!(bytes.len(), 26);
    assert_eq!(&bytes[0..2], &[7, 0]);
    assert_eq!(&bytes[2..6], &[4, 3, 2, 1]);
    assert_eq!(&bytes[6..10], &[0x0d, 0x0c, 0x0b, 0x0a]);
    assert_eq!(&bytes[10..26], &peer().gid);
    let read = DestQpInfo::from_bytes(&bytes).unwrap();
    assert_eq!((read.lid, read.qpn, read.psn, read.gid), (7, 0x0102_0304, 0x0a0b_0c0d, peer().gid));
    assert!(DestQpInfo::from_bytes(&bytes[..25]).is_none());
    let mut longer = bytes.clone();
    longer.push(0);
    assert!(DestQpInfo::from_bytes(&longer).is_none());
}

#[test]
fn scan_stops_at_the_first_decisive_entry() {
    let other = done(1, Opcode::Send);
    assert!(matches!(scan(&[], 2, Opcode::Send), Verdict::Pending));
    assert!(matches!(scan(&[other, done(2, Opcode::Recv)], 2, Opcode::Send), Verdict::Pending));
    assert!(matches!(scan(&[other, done(2, Opcode::Send)], 2, Opcode::Send), Verdict::Completed));
    assert!(matches!(
        scan(&[done(2, Opcode::Send), failed(2, Opcode::Send, 4, 0)], 2, Opcode::Send),
        Verdict::Completed
    ));
    match scan(&[other, failed(9, Opcode::Other, 12, 129), done(2, Opcode::Send)], 2, Opcode::Send) {
        Verdict::Failed(failure) => {
            assert_eq!(failure, FailedCompletion { wr_id: 9, opcode: Opcode::Other, status: 12, vendor_err: 129 });
        }
        _ => panic!("the failure comes first"),
    }
}

#[test]
fn handshake_needs_both_completions() {
    let mut handshake = RdmaHandShake::new(0x5a);
    assert_eq!(handshake.signal, 0x5a);
    assert!(!handshake.is_complete());
    assert_eq!(HANDSHAKE_WR_ID, 1);
    assert_eq!(handshake.absorb(&[done(2, Opcode::Send), done(1, Opcode::Other)]), Ok(()));
    assert!(!handshake.sent && !handshake.received);
    assert_eq!(handshake.absorb(&[done(1, Opcode::Recv)]), Ok(()));
    assert!(handshake.received && !handshake.is_complete());
    assert_eq!(handshake.absorb(&[done(1, Opcode::Recv)]), Ok(()));
    assert!(!handshake.is_complete());
    // What follows the completion of the handshake is not looked at.
    assert_eq!(handshake.absorb(&[done(1, Opcode::Send), failed(1, Opcode::Send, 5, 0)]), Ok(()));
    assert!(handshake.is_complete());

    let mut failing = RdmaHandShake::new(0);
    assert_eq!(
        failing.absorb(&[done(1, Opcode::Send), failed(3, Opcode::Recv, 5, 1)]),
        Err(RdmaError::WorkCompletionError(FailedCompletion { wr_id: 3, opcode: Opcode::Recv, status: 5, vendor_err: 1 }))
    );
    assert!(!failing.sent);
    let drawn = RdmaHandShake::random();
    assert!(!drawn.sent && !drawn.received);
    assert_eq!(
        RdmaHandShake::registration(),
        Registration {
            length: 2,
            access: AccessFlags { local_write: true, remote_write: true, remote_read: true, remote_atomic: false },
        }
    );
}

#[test]
fn elements_must_lie_in_the_region() {
    let region = MemoryRegion::registered(true, 0x1000, 0x100, 7).unwrap();
    assert_eq!((region.addr(), region.length(), region.lkey()), (0x1000, 0x100, 7));
    assert_eq!(scatter_gather(&region, 0x1000, 32, 8), Ok(Sge { addr: 0x1000, length: 256, lkey: 7 }));
    assert_eq!(scatter_gather(&region, 0x1080, 16, 8), Ok(Sge { addr: 0x1080, length: 128, lkey: 7 }));
    assert_eq!(scatter_gather(&region, 0x1100, 0, 8), Ok(Sge { addr: 0x1100, length: 0, lkey: 7 }));
    assert_eq!(scatter_gather(&region, 0x1080, 17, 8), Err(RdmaError::OutOfRegion));
    assert_eq!(scatter_gather(&region, 0xfff, 1, 1), Err(RdmaError::OutOfRegion));
    assert_eq!(scatter_gather(&region, 0x1000, usize::MAX, 2), Err(RdmaError::OutOfRegion));
    let large = MemoryRegion::registered(true, 0, u64::MAX, 1).unwrap();
    assert_eq!(scatter_gather(&large, 0, 1 << 29, 8), Err(RdmaError::OutOfRegion));
    assert_eq!(
        scatter_gather(&large, 8, (1 << 29) - 1, 8),
        Ok(Sge { addr: 8, length: u32::MAX - 7, lkey: 1 })
    );
    assert!(region.covers(0x10ff, 1));
    assert!(!region.covers(0x10ff, 2));
}

#[test]
fn regions_come_from_what_the_device_answered() {
    assert_eq!(MemoryRegion::registered(false, 0, 16, 1).err(), Some(RdmaError::RegMrError));
    assert_eq!(MemoryRegion::registered(true, u64::MAX, 1, 1).err(), Some(RdmaError::RegMrError));
    assert!(MemoryRegion::registered(true, u64::MAX, 0, 1).is_ok());
    let request = MemoryRegion::request(1 << 20, 8).unwrap();
    assert_eq!(request.length, 8 << 20);
    assert_eq!(
        request.access,
        AccessFlags { local_write: true, remote_write: true, remote_read: true, remote_atomic: false }
    );
    assert!(MemoryRegion::request(usize::MAX, 2).is_none());
    let resource = IbResource::new();
    assert_eq!(resource.register_memory_region(4, 8).map(|registration| registration.length), Ok(32));
    assert_eq!(resource.register_memory_region(usize::MAX, 8), Err(RdmaError::RegMrError));
}

#[test]
fn requests_are_built_from_the_region() {
    let resource = IbResource::new();
    let region = MemoryRegion::registered(true, 0x4000, 512, 21).unwrap();
    assert_eq!(
        resource.post_send(2, &region, 0x4040, 8, 8, true),
        Ok(SendRequest {
            wr_id: 2,
            sge: Sge { addr: 0x4040, length: 64, lkey: 21 },
            flags: SendFlags { signaled: true, ..NO_FLAGS },
        })
    );
    assert_eq!(
        resource.post_send(2, &region, 0x4040, 8, 8, false).map(|request| request.flags),
        Ok(NO_FLAGS)
    );
    assert_eq!(resource.post_send(2, &region, 0x4040, 64, 8, true), Err(RdmaError::OutOfRegion));
    assert_eq!(
        resource.post_recv(2, &region, 0x4000, 64, 8),
        Ok(RecvRequest { wr_id: 2, sge: Sge { addr: 0x4000, length: 512, lkey: 21 } })
    );
    assert_eq!(resource.post_recv(2, &region, 0x3fff, 1, 1), Err(RdmaError::OutOfRegion));
}

#[test]
fn polled_entries_are_cut_to_the_count() {
    let resource = IbResource::new();
    let buffer = [done(1, Opcode::Send), done(2, Opcode::Recv), done(3, Opcode::Other)];
    assert_eq!(resource.poll_cq(0, &buffer), Ok(vec![]));
    assert_eq!(resource.poll_cq(2, &buffer), Ok(vec![buffer[0], buffer[1]]));
    assert_eq!(resource.poll_cq(3, &buffer), Ok(buffer.to_vec()));
    assert_eq!(resource.poll_cq(-1, &buffer), Err(RdmaError::PollCqError(-1)));
    assert_eq!(resource.poll_cq(4, &buffer), Err(RdmaError::PollCqError(4)));
}

#[test]
fn send_flags_are_set_one_by_one() {
    assert_eq!(SendFlagBuilder::new().build(), NO_FLAGS);
    assert_eq!(SendFlagBuilder::new().signaled().build(), SendFlags { signaled: true, ..NO_FLAGS });
    assert_eq!(SendFlagBuilder::new().fenced().build(), SendFlags { fenced: true, ..NO_FLAGS });
    assert_eq!(SendFlagBuilder::new().inline().build(), SendFlags { inline: true, ..NO_FLAGS });
    assert_eq!(SendFlagBuilder::new().solicited().build(), SendFlags { solicited: true, ..NO_FLAGS });
    assert_eq!(
        SendFlagBuilder::new().signaled().inline().signaled().build(),
        SendFlags { signaled: true, inline: true, ..NO_FLAGS }
    );
}

#[test]
fn connection_type_follows_the_server_address() {
    assert_eq!(
        ConnectionType::for_endpoint(None, 9000, 64),
        ConnectionType::Server { port: 9000, message_size: 64 }
    );
    let address = ServerAddress::V6 { high: 0xfe80 << 48, low: 1 };
    let dialing = ConnectionType::for_endpoint(Some(address), 9000, 32);
    assert_eq!(dialing, ConnectionType::Client { server_addr: address, port: 9000, message_size: 32 });
    assert!(!dialing.is_server());
    assert_eq!(dialing.port(), 9000);
    assert_eq!(dialing.message_size(), 32);
    assert!(ConnectionType::Server { port: 1, message_size: 2 }.is_server());
}

fn outbound() -> Transfer {
    let region = MemoryRegion::registered(true, 0x10000, 8 * 1024, 99).unwrap();
    Transfer::new(Direction::Outbound, 64, 8, 0x10000, region)
}

#[test]
fn outbound_message_is_sent_then_committed() {
    let mut transfer = outbound();
    assert_eq!(transfer.next(), Work::TakeChunk { len: 64 });
    // The ring has nothing yet: the adapter yields and asks again.
    assert_eq!(transfer.chunk(None), Ok(()));
    assert_eq!(transfer.next(), Work::TakeChunk { len: 64 });
    assert_eq!(transfer.chunk(Some(128)), Ok(()));
    let expected = SendRequest {
        wr_id: 2,
        sge: Sge { addr: 0x10000 + 128 * 8, length: 512, lkey: 99 },
        flags: SendFlags { signaled: true, ..NO_FLAGS },
    };
    assert_eq!(transfer.next(), Work::PostSend { send: expected });
    assert_eq!(DATA_WR_ID, 2);
    assert_eq!(transfer.posted(0), Ok(()));
    assert_eq!(transfer.next(), Work::Poll { batch: 16 });
    assert_eq!(transfer.polled(false, &[]), Ok(()));
    assert_eq!(transfer.polled(false, &[done(2, Opcode::Recv), done(1, Opcode::Send)]), Ok(()));
    assert_eq!(transfer.phase(), Phase::Polling);
    assert_eq!(transfer.polled(false, &[done(2, Opcode::Send)]), Ok(()));
    assert_eq!(transfer.next(), Work::Commit);
    assert_eq!(transfer.committed(), Ok(()));
    assert_eq!(transfer.phase(), Phase::Idle);
}

#[test]
fn inbound_message_is_received_then_committed() {
    let region = MemoryRegion::registered(true, 0x10000, 8 * 1024, 99).unwrap();
    let mut transfer = Transfer::new(Direction::Inbound, 64, 8, 0x10000, region);
    assert_eq!(transfer.chunk(Some(0)), Ok(()));
    assert_eq!(
        transfer.next(),
        Work::PostRecv { recv: RecvRequest { wr_id: 2, sge: Sge { addr: 0x10000, length: 512, lkey: 99 } } }
    );
    assert_eq!(transfer.posted(0), Ok(()));
    assert_eq!(transfer.polled(false, &[done(2, Opcode::Send)]), Ok(()));
    assert_eq!(transfer.phase(), Phase::Polling);
    assert_eq!(transfer.polled(false, &[done(2, Opcode::Recv)]), Ok(()));
    assert_eq!(transfer.phase(), Phase::Committing);
}

#[test]
fn stop_flag_ends_the_transfer_without_a_commit() {
    let mut transfer = outbound();
    transfer.chunk(Some(0)).unwrap();
    transfer.posted(0).unwrap();
    assert_eq!(transfer.polled(true, &[done(2, Opcode::Send)]), Ok(()));
    assert_eq!(transfer.phase(), Phase::Stopped);
    assert_eq!(transfer.next(), Work::Exit);
    assert_eq!(transfer.committed(), Err(RdmaError::UnexpectedOutcome));
}

#[test]
fn data_plane_failures_are_fatal() {
    let mut refused = outbound();
    refused.chunk(Some(0)).unwrap();
    assert_eq!(refused.posted(5), Err(RdmaError::PostSendError(5)));
    assert_eq!(refused.phase(), Phase::Stopped);

    let region = MemoryRegion::registered(true, 0x10000, 8 * 1024, 99).unwrap();
    let mut inbound = Transfer::new(Direction::Inbound, 64, 8, 0x10000, region);
    inbound.chunk(Some(0)).unwrap();
    assert_eq!(inbound.posted(-1), Err(RdmaError::PostRecvError(-1)));

    let mut broken = outbound();
    broken.chunk(Some(0)).unwrap();
    broken.posted(0).unwrap();
    assert_eq!(
        broken.polled(false, &[failed(2, Opcode::Send, 10, 3), done(2, Opcode::Send)]),
        Err(RdmaError::WorkCompletionError(FailedCompletion { wr_id: 2, opcode: Opcode::Send, status: 10, vendor_err: 3 }))
    );
    assert_eq!(broken.phase(), Phase::Stopped);

    let mut outside = outbound();
    assert_eq!(outside.chunk(Some(1024 - 63)), Err(RdmaError::OutOfRegion));
    assert_eq!(outside.phase(), Phase::Stopped);
    let mut last = outbound();
    assert_eq!(last.chunk(Some(1024 - 64)), Ok(()));

    let mut early = outbound();
    assert_eq!(early.posted(0), Err(RdmaError::UnexpectedOutcome));
    let mut eager = outbound();
    assert_eq!(eager.polled(false, &[]), Err(RdmaError::UnexpectedOutcome));
    let mut twice = outbound();
    twice.chunk(Some(0)).unwrap();
    assert_eq!(twice.chunk(Some(0)), Err(RdmaError::UnexpectedOutcome));
}

#[test]
fn errors_have_their_texts() {
    assert_eq!(RdmaError::GetIbDeviceError.message(), "Failed to get IB device list");
    assert_eq!(RdmaError::OpenIbDeviceError.message(), "Failed to open IB device");
    assert_eq!(RdmaError::NoSuchDevice.message(), "No IB device of that name");
    assert_eq!(RdmaError::AllocPdError.message(), "Failed to allocate protection domain");
    assert_eq!(RdmaError::QueryPortError(-22).message(), "Failed to query port with return value -22");
    assert_eq!(RdmaError::QueryDeviceError(0).message(), "Failed to query device with return value 0");
    assert_eq!(RdmaError::QueryGidError(105).message(), "Failed to query gid with return value 105");
    assert_eq!(RdmaError::CreateCqError.message(), "Failed to create completion queue");
    assert_eq!(RdmaError::CreateQpError.message(), "Failed to create queue pair");
    assert_eq!(
        RdmaError::ModifyQpError { from_state: QpState::Reset, to_state: QpState::Init }.message(),
        "Failed to modify QP from RESET to INIT"
    );
    assert_eq!(
        RdmaError::ModifyQpError { from_state: QpState::Rtr, to_state: QpState::Rts }.message(),
        "Failed to modify QP from RTR to RTS"
    );
    assert_eq!(RdmaError::RegMrError.message(), "Failed to register memory region");
    assert_eq!(RdmaError::PortNotActive.message(), "Port is not active");
    assert_eq!(RdmaError::PeerMismatch.message(), "Peer sent a malformed identifier");
    assert_eq!(
        RdmaError::Connection(ConnectionError::TcpListenerError).message(),
        "Failed to accept the peer"
    );
    assert_eq!(RdmaError::Connection(ConnectionError::TcpStreamError).message(), "Failed to talk to the peer");
    assert_eq!(
        RdmaError::PollCqError(i32::MIN).message(),
        "Failed to poll completion queue with return value -2147483648"
    );
    assert_eq!(RdmaError::PostSendError(12).message(), "Failed to post send with return value 12");
    assert_eq!(RdmaError::PostRecvError(7).message(), "Failed to post recv with return value 7");
    assert_eq!(
        RdmaError::WorkCompletionError(FailedCompletion {
            wr_id: u64::MAX,
            opcode: Opcode::Recv,
            status: 5,
            vendor_err: 129,
        })
        .message(),
        "Work completion failed: wr_id 18446744073709551615, opcode RECV, status 5, vendor error 129"
    );
    assert_eq!(RdmaError::OutOfRegion.message(), "Buffer is not part of the memory region");
    assert_eq!(
        RdmaError::UnexpectedOutcome.message(),
        "Outcome does not belong to the step in progress"
    );
}
