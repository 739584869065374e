use sigfd::record::SIGINFO_FIELDS_SIZE;
use sigfd::{
    siginfo, signalfd_result, ByteOrder, Error, ReadOutcome, SfdFlags, SignalFd, SignalInfo,
    CREATE_NEW_FD, SFD_CLOEXEC, SFD_NONBLOCK, SIGINFO_PADDING, SIGINFO_SIZE,
};

fn zero_record() -> siginfo {
    siginfo {
        ssi_signo: 0,
        ssi_errno: 0,
        ssi_code: 0,
        ssi_pid: 0,
        ssi_uid: 0,
        ssi_fd: 0,
        ssi_tid: 0,
        ssi_band: 0,
        ssi_overrun: 0,
        ssi_trapno: 0,
        ssi_status: 0,
        ssi_int: 0,
        ssi_ptr: 0,
        ssi_utime: 0,
        ssi_stime: 0,
        ssi_addr: 0,
    }
}

fn sample_record() -> siginfo {
    siginfo {
        ssi_signo: 10,
        ssi_errno: -2,
        ssi_code: -6,
        ssi_pid: 4242,
        ssi_uid: 1000,
        ssi_fd: -1,
        ssi_tid: 7,
        ssi_band: 0x0102_0304,
        ssi_overrun: 3,
        ssi_trapno: 14,
        ssi_status: 0x7fff_ffff,
        ssi_int: i32::MIN,
        ssi_ptr: 0x1122_3344_5566_7788,
        ssi_utime: 12345,
        ssi_stime: u64::MAX,
        ssi_addr: 0xdead_beef,
    }
}

fn open_handle(fd: i32) -> SignalFd {
    SignalFd::created(fd, 0).unwrap()
}

#[test]
fn check_siginfo_size() {
    assert_eq!(std::mem::size_of::<siginfo>() + SIGINFO_PADDING, SIGINFO_SIZE);
}

#[test]
fn wire_layout_sizes() {
    assert_eq!(SIGINFO_FIELDS_SIZE + SIGINFO_PADDING, SIGINFO_SIZE);
    assert_eq!(SIGINFO_SIZE, 128);
    assert_eq!(sample_record().to_bytes(ByteOrder::Little).len(), SIGINFO_SIZE);
    assert_eq!(sample_record().to_bytes(ByteOrder::Big).len(), SIGINFO_SIZE);
}

#[test]
fn zero_buffer_decodes_to_zero_record() {
    let buf = [0u8; 128];
    assert_eq!(siginfo::from_bytes(&buf, ByteOrder::Little), zero_record());
    assert_eq!(siginfo::from_bytes(&buf, ByteOrder::Big), zero_record());
}

#[test]
fn field_offsets_little_endian() {
    let mut buf = [0u8; 128];
    buf[0] = 10;
    buf[4] = 0xff;
    buf[5] = 0xff;
    buf[6] = 0xff;
    buf[7] = 0xff;
    buf[12] = 0x39;
    buf[13] = 0x30;
    buf[48] = 0x88;
    buf[55] = 0x11;
    buf[72] = 0xef;
    buf[73] = 0xbe;
    let r = siginfo::from_bytes(&buf, ByteOrder::Little);
    assert_eq!(r.ssi_signo, 10);
    assert_eq!(r.ssi_errno, -1);
    assert_eq!(r.ssi_code, 0);
    assert_eq!(r.ssi_pid, 12345);
    assert_eq!(r.ssi_ptr, 0x1100_0000_0000_0088);
    assert_eq!(r.ssi_addr, 0xbeef);
    assert_eq!(r.ssi_stime, 0);
}

#[test]
fn field_offsets_big_endian() {
    let mut buf = [0u8; 128];
    buf[3] = 10;
    buf[16] = 0x12;
    buf[19] = 0x34;
    buf[79] = 1;
    let r = siginfo::from_bytes(&buf, ByteOrder::Big);
    assert_eq!(r.ssi_signo, 10);
    assert_eq!(r.ssi_uid, 0x1200_0034);
    assert_eq!(r.ssi_addr, 1);
    assert_eq!(r.ssi_ptr, 0);
}

#[test]
fn encode_writes_fields_in_order() {
    let bytes = sample_record().to_bytes(ByteOrder::Little);
    assert_eq!(&bytes[0..4], &[10, 0, 0, 0]);
    assert_eq!(&bytes[4..8], &[0xfe, 0xff, 0xff, 0xff]);
    assert_eq!(&bytes[28..32], &[0x04, 0x03, 0x02, 0x01]);
    assert_eq!(&bytes[48..56], &[0x88, 0x77, 0x66, 0x55, 0x44, 0x33, 0x22, 0x11]);
    assert!(bytes[80..128].iter().all(|b| *b == 0));
    let big = sample_record().to_bytes(ByteOrder::Big);
    assert_eq!(&big[28..32], &[0x01, 0x02, 0x03, 0x04]);
    assert_eq!(&big[44..48], &[0x80, 0, 0, 0]);
}

#[test]
fn record_round_trip() {
    for order in [ByteOrder::Little, ByteOrder::Big] {
        let r = sample_record();
        assert_eq!(siginfo::from_bytes(&r.to_bytes(order), order), r);
    }
}

#[test]
fn buffer_round_trip() {
    let mut buf = [0u8; 128];
    for (i, b) in buf.iter_mut().enumerate().take(80) {
        *b = (i as u8).wrapping_mul(37).wrapping_add(1);
    }
    for order in [ByteOrder::Little, ByteOrder::Big] {
        let r = siginfo::from_bytes(&buf, order);
        assert_eq!(r.to_bytes(order), buf.to_vec());
    }
}

#[test]
fn created_handle_owns_descriptor() {
    let h = SignalFd::created(3, 0);
    assert!(h.is_ok());
    assert_eq!(h.unwrap().fd(), 3);
}

#[test]
fn created_failure_reports_errno() {
    assert_eq!(SignalFd::created(-1, 22).unwrap_err(), Error::Sys(22));
    assert_eq!(signalfd_result(-1, 24), Err(Error::Sys(24)));
    assert_eq!(signalfd_result(7, 0), Ok(7));
    assert_eq!(CREATE_NEW_FD, -1);
}

#[test]
fn read_with_nothing_pending_is_no_record() {
    let h = open_handle(3);
    let buf = [0u8; 128];
    assert_eq!(h.read_signal(ReadOutcome::WouldBlock, &buf, ByteOrder::Little), Ok(None));
}

#[test]
fn set_mask_keeps_handle() {
    let mut h = open_handle(4);
    assert_eq!(h.set_mask(4, 0), Ok(()));
    assert_eq!(h.fd(), 4);
    assert_eq!(h.set_mask(-1, 22), Err(Error::Sys(22)));
    assert_eq!(h.fd(), 4);
    let buf = [0u8; 128];
    assert_eq!(h.read_signal(ReadOutcome::WouldBlock, &buf, ByteOrder::Little), Ok(None));
}

#[test]
fn partial_read_is_an_error() {
    let h = open_handle(3);
    let buf = [0u8; 128];
    assert_eq!(
        h.read_signal(ReadOutcome::Bytes(64), &buf, ByteOrder::Little),
        Err(Error::PartialRead(64))
    );
    assert_eq!(
        h.read_signal(ReadOutcome::Bytes(0), &buf, ByteOrder::Little),
        Err(Error::PartialRead(0))
    );
}

#[test]
fn failed_read_reports_errno() {
    let h = open_handle(3);
    let buf = [0u8; 128];
    assert_eq!(h.read_signal(ReadOutcome::Failed(9), &buf, ByteOrder::Little), Err(Error::Sys(9)));
}

#[test]
fn release_twice_closes_once() {
    let mut h = open_handle(5);
    assert_eq!(h.release(), Some(5));
    assert_eq!(h.release(), None);
    assert_eq!(h.fd(), 5);
}

#[test]
fn raised_signal_is_read_once() {
    let h = open_handle(6);
    let mut sent = zero_record();
    sent.ssi_signo = 10;
    sent.ssi_pid = 321;
    let buf = sent.to_bytes(ByteOrder::Little);
    let got = h.read_signal(ReadOutcome::Bytes(SIGINFO_SIZE), &buf, ByteOrder::Little);
    assert_eq!(got, Ok(Some(sent)));
    assert_eq!(got.unwrap().unwrap().ssi_signo, 10);
    let empty = [0u8; 128];
    assert_eq!(h.read_signal(ReadOutcome::WouldBlock, &empty, ByteOrder::Little), Ok(None));
}

#[test]
fn pass_with_nothing_pending_yields_nothing() {
    let h = open_handle(3);
    let buf = [0u8; 128];
    let mut records = Vec::new();
    while let Some(r) = h.next_signal(ReadOutcome::WouldBlock, &buf, ByteOrder::Little) {
        records.push(r);
    }
    assert!(records.is_empty());
}

#[test]
fn pass_ends_on_errors() {
    let h = open_handle(3);
    let buf = sample_record().to_bytes(ByteOrder::Big);
    assert_eq!(h.next_signal(ReadOutcome::Failed(4), &buf, ByteOrder::Big), None);
    assert_eq!(h.next_signal(ReadOutcome::Bytes(100), &buf, ByteOrder::Big), None);
    assert_eq!(
        h.next_signal(ReadOutcome::Bytes(SIGINFO_SIZE), &buf, ByteOrder::Big),
        Some(sample_record())
    );
}

#[test]
fn record_to_signal_info() {
    let mut r = sample_record();
    r.ssi_pid = 0xffff_ffff;
    let info: SignalInfo = r.into();
    assert_eq!(
        info,
        SignalInfo { si_signo: 10, si_errno: -2, si_code: -6, pid: -1, uid: 1000, status: 0x7fff_ffff }
    );
}

#[test]
fn flag_sets() {
    assert_eq!(SfdFlags::empty().bits(), 0);
    let both = SfdFlags::from_bits_truncate(SFD_CLOEXEC).union(SfdFlags::from_bits_truncate(SFD_NONBLOCK));
    assert_eq!(both.bits(), 0o2004000);
    assert_eq!(both, SfdFlags::all());
    assert!(both.contains(SfdFlags::from_bits_truncate(SFD_NONBLOCK)));
    assert!(!SfdFlags::empty().contains(SfdFlags::from_bits_truncate(SFD_CLOEXEC)));
    assert_eq!(SfdFlags::from_bits_truncate(-1), SfdFlags::all());
    assert_eq!(SfdFlags::from_bits_truncate(1).bits(), 0);
}
