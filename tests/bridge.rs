use tracing_os_log::{
    os_log_type_for, to_c_string, CreateError, Level, LogCall, NulError, OsLog, OsLogMakeWriter,
    OsLogType, WriteError,
};

fn make_writer(raw: usize) -> OsLogMakeWriter {
    OsLogMakeWriter::new(OsLog::new(raw).expect("non-null handle"))
}

#[test]
fn level_mapping_table() {
    assert_eq!(os_log_type_for(Level::Trace), OsLogType::Debug);
    assert_eq!(os_log_type_for(Level::Debug), OsLogType::Debug);
    assert_eq!(os_log_type_for(Level::Info), OsLogType::Info);
    assert_eq!(os_log_type_for(Level::Warn), OsLogType::Error);
    assert_eq!(os_log_type_for(Level::Error), OsLogType::Error);
}

#[test]
fn level_mapping_is_deterministic() {
    for level in [Level::Trace, Level::Debug, Level::Info, Level::Warn, Level::Error] {
        assert_eq!(os_log_type_for(level), os_log_type_for(level));
    }
}

#[test]
fn native_type_constants() {
    assert_eq!(OsLogType::Debug.raw(), 2);
    assert_eq!(OsLogType::Info.raw(), 1);
    assert_eq!(OsLogType::Error.raw(), 16);
}

#[test]
fn c_string_appends_terminator() {
    assert_eq!(to_c_string(b"abc"), Ok(vec![b'a', b'b', b'c', 0]));
    assert_eq!(to_c_string(b""), Ok(vec![0]));
}

#[test]
fn c_string_reports_first_nul() {
    assert_eq!(to_c_string(&[0]), Err(NulError { position: 0 }));
    assert_eq!(to_c_string(b"ab\0c\0"), Err(NulError { position: 2 }));
    assert_eq!(to_c_string(b"ab\0").unwrap_err().nul_position(), 2);
}

#[test]
fn null_handle_is_a_construction_error() {
    assert_eq!(OsLog::new(0).err(), Some(CreateError));
    assert!(OsLog::new(0x1000).is_ok());
}

#[test]
fn hello_at_info_level() {
    let mw = make_writer(0x1000);
    let w = mw.make_writer(Level::Info);
    let call = w.log_event(b"hello").unwrap();
    assert_eq!(
        call,
        LogCall {
            logger: 0x1000,
            log_type: OsLogType::Info,
            message: b"hello\0".to_vec(),
            accepted: 5,
        }
    );
    assert_eq!(call.log_type.raw(), 1);
}

#[test]
fn new_handle_accepts_a_write() {
    let mw = make_writer(0x2000);
    assert_eq!(mw.make_writer(Level::Trace).log_event(b"").unwrap().accepted, 0);
    let call = mw.make_writer(Level::Error).log_event(b"disk full").unwrap();
    assert_eq!(call.log_type, OsLogType::Error);
    assert_eq!(call.logger, 0x2000);
}

#[test]
fn accepted_count_is_payload_length() {
    let mw = make_writer(0x3000);
    let w = mw.make_writer(Level::Debug);
    let long = vec![b'x'; 4096];
    let call = w.log_event(&long).unwrap();
    assert_eq!(call.accepted, 4096);
    assert_eq!(call.message.len(), 4097);
    assert_eq!(call.message[4096], 0);
    assert_eq!(call.log_type, OsLogType::Debug);
}

#[test]
fn nul_in_payload_is_an_encoding_error_and_writer_recovers() {
    let mw = make_writer(0x4000);
    let w = mw.make_writer(Level::Warn);
    assert_eq!(
        w.log_event(b"bad\0payload"),
        Err(WriteError::Encoding(NulError { position: 3 }))
    );
    let call = w.log_event(b"good").unwrap();
    assert_eq!(call.accepted, 4);
    assert_eq!(call.message, b"good\0".to_vec());
    assert_eq!(call.log_type, OsLogType::Error);
}

#[test]
fn release_happens_once() {
    let mut mw = make_writer(0x5000);
    assert_eq!(mw.release(), Some(0x5000));
    assert_eq!(mw.release(), None);
    assert_eq!(mw.release(), None);
}

#[test]
fn write_after_release_is_refused() {
    let mut mw = make_writer(0x6000);
    mw.release();
    assert_eq!(
        mw.make_writer(Level::Info).log_event(b"late"),
        Err(WriteError::Released)
    );
    assert_eq!(
        mw.make_writer(Level::Info).log_event(b"late\0"),
        Err(WriteError::Released)
    );
}

#[test]
fn n_bridges_release_n_distinct_handles() {
    let n: usize = 16;
    let mut bridges: Vec<OsLogMakeWriter> = (1..=n).map(|i| make_writer(i * 0x100)).collect();
    let mut released: Vec<usize> = Vec::new();
    for b in bridges.iter_mut() {
        if let Some(h) = b.release() {
            released.push(h);
        }
    }
    assert_eq!(released.len(), n);
    let mut sorted = released.clone();
    sorted.sort();
    sorted.dedup();
    assert_eq!(sorted.len(), n);
    for b in bridges.iter_mut() {
        assert_eq!(b.release(), None);
    }
}

#[test]
fn handle_state_follows_release() {
    let mut h = OsLog::new(0x7000).unwrap();
    assert!(h.is_live());
    assert_eq!(h.handle(), Some(0x7000));
    assert_eq!(h.release(), Some(0x7000));
    assert!(!h.is_live());
    assert_eq!(h.handle(), None);
}
