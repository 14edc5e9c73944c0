use starsdr::handle::HandleCall;
use num::complex::Complex32;
use num::Complex;
use starsdr::{
    CreateRx, CreateTx, DeviceUHD, DriverUHD, HandleKind, NativeHandle, RxUHD, SDRError, SampleType, Stage,
    StreamBuilder, StreamCall, TxSend, TxUHD,
};

/// A stand-in for the native library that counts the calls made on it.
struct FakeNative {
    next_raw: usize,
    makes: usize,
    frees: usize,
    max_samples: usize,
    tx_channels: usize,
    fail_bind: bool,
    fail_metadata: bool,
    calls: Vec<StreamCall>,
}

impl FakeNative {
    fn new(max_samples: usize) -> FakeNative {
        FakeNative {
            next_raw: 100,
            makes: 0,
            frees: 0,
            max_samples,
            tx_channels: 2,
            fail_bind: false,
            fail_metadata: false,
            calls: Vec::new(),
        }
    }

    fn make(&mut self, kind: HandleKind) -> NativeHandle {
        self.makes += 1;
        self.next_raw += 1;
        NativeHandle::acquire(kind, 0, self.next_raw, || String::new()).unwrap()
    }

    fn free(&mut self, h: NativeHandle) {
        let _ = h.release();
        self.frees += 1;
    }

    fn open(&mut self, d: &mut DeviceUHD) {
        if d.open_call().is_some() {
            let h = self.make(HandleKind::Device);
            d.open_complete(Ok(h)).unwrap();
        }
    }

    fn run(&mut self, mut b: StreamBuilder) -> StreamBuilder {
        loop {
            let call = b.next_call();
            self.calls.push(call);
            match call {
                StreamCall::MakeStreamer { rx } => {
                    let kind = if rx { HandleKind::RxStreamer } else { HandleKind::TxStreamer };
                    let h = self.make(kind);
                    b.on_made(Ok(h));
                }
                StreamCall::MakeMetadata => {
                    if self.fail_metadata {
                        b.on_made(NativeHandle::acquire(HandleKind::RxMetadata, 44, 0, || "no memory".to_string()));
                    } else {
                        let h = self.make(HandleKind::RxMetadata);
                        b.on_made(Ok(h));
                    }
                }
                StreamCall::Bind { .. } => {
                    if self.fail_bind {
                        b.on_status(Err(SDRError::Unknown(44, "bad channel".to_string())));
                    } else {
                        b.on_status(Ok(0));
                    }
                }
                StreamCall::QueryMax { .. } => b.on_status(Ok(self.max_samples)),
                StreamCall::StartContinuous { .. } => b.on_status(Ok(0)),
                StreamCall::Finished => return b,
            }
        }
    }

    fn build_tx<T>(&mut self, b: StreamBuilder) -> TxUHD<T> {
        let (r, to_free) = self.run(b).finish_tx();
        for h in to_free {
            self.free(h);
        }
        r.unwrap()
    }

    fn build_rx<T>(&mut self, b: StreamBuilder) -> RxUHD<T> {
        let (r, to_free) = self.run(b).finish_rx();
        for h in to_free {
            self.free(h);
        }
        r.unwrap()
    }

    /// One send: the metadata made for it and freed after it, all accepted.
    fn send<T>(&mut self, tx: &TxUHD<T>, v: &[Complex<T>]) -> Result<usize, SDRError> {
        let plan: TxSend = tx.send_plan(v)?;
        let md = self.make(HandleKind::TxMetadata);
        self.free(md);
        Ok(plan.len)
    }

    /// One receive that fills `filled` samples and leaves `code` in the
    /// metadata.
    fn recv(&mut self, rx: &RxUHD<i16>, filled: usize, code: i32) -> Result<Vec<Complex<i16>>, SDRError> {
        let plan = rx.recv_plan();
        let buf = vec![Complex::new(1i16, 0i16); plan.capacity];
        rx.recv_complete(Ok(()), filled, buf, code)
    }
}

fn one_device(address: &str) -> DeviceUHD {
    let driver = DriverUHD::new();
    let mut devices = driver.devices_from(Ok(()), vec![address.to_string()]).unwrap();
    devices.pop().unwrap()
}

#[test]
fn test_device_list() {
    let driver = DriverUHD::new();
    let devices = driver
        .devices_from(Ok(()), vec!["type=b200,serial=31".to_string(), "addr=192.168.10.2".to_string()])
        .unwrap();
    for d in devices.iter() {
        println!("{}", d.to_display());
    }
    assert!(true);
}

#[test]
fn test_device_open() {
    let mut native = FakeNative::new(1984);
    let mut d = one_device("addr=0");
    native.open(&mut d);
    assert!(d.is_open());
    assert!(d.use_usrp().is_ok());
    let handle = d.release().unwrap();
    native.free(handle);
    assert_eq!(native.makes, native.frees);
}

#[test]
fn test_tx_f32() {
    let mut native = FakeNative::new(1984);
    let mut d = one_device("addr=0");
    native.open(&mut d);
    let channels = vec![0, 1];
    let tx: TxUHD<f32> = native.build_tx(d.tx_stream(SampleType::F32, channels.as_slice()).unwrap());
    let mut data = vec![Complex32::new(0.0, 0.0); tx.sample_num_max()];
    for datum in &mut data {
        *datum = Complex32::new(0.1, 0.0);
    }
    for _ in 0..1000 {
        let n = native.send(&tx, data.as_slice()).unwrap();
        assert_eq!(n, tx.sample_num_max());
    }
}

#[test]
fn test_tx_i16() {
    let mut native = FakeNative::new(2040);
    let mut d = one_device("addr=0");
    native.open(&mut d);
    let channels = vec![0, 1];
    let tx: TxUHD<i16> = native.build_tx(d.tx_stream(SampleType::I16, channels.as_slice()).unwrap());
    let mut data = Vec::with_capacity(tx.sample_num_max());
    for _ in 0..data.capacity() {
        data.push(Complex::new(1, 0));
    }
    for _ in 0..1000 {
        let n = native.send(&tx, data.as_slice()).unwrap();
        assert_eq!(n, data.len());
    }
}

#[test]
fn test_rx_f32() {
    let mut native = FakeNative::new(363);
    let mut d = one_device("addr=0");
    native.open(&mut d);
    let channels = vec![0];
    let rx: RxUHD<f32> = native.build_rx(d.rx_stream(SampleType::F32, channels.as_slice()).unwrap());
    for _ in 0..100 {
        let plan = rx.recv_plan();
        let buf = vec![Complex32::new(0.0, 0.0); plan.capacity];
        let r = rx.recv_complete(Ok(()), 100, buf, 0).unwrap();
        assert_eq!(r.len(), 100);
    }
}

#[test]
fn test_rx_i16() {
    let mut native = FakeNative::new(363);
    let mut d = one_device("addr=0");
    native.open(&mut d);
    let channels = vec![0];
    let rx: RxUHD<i16> = native.build_rx(d.rx_stream(SampleType::I16, channels.as_slice()).unwrap());
    for _ in 0..100 {
        let r = native.recv(&rx, 363, 0).unwrap();
        assert_eq!(r.len(), 363);
    }
    assert!(true);
}

#[test]
fn round_trip_scenario() {
    let mut native = FakeNative::new(1984);
    let mut d = one_device("addr=0");
    assert_eq!(d.to_display(), "addr=0");
    native.open(&mut d);
    assert_eq!(native.tx_channels, 2);
    let b = d.new_tx_streamer(SampleType::F32, &[0, 1]).unwrap();
    assert_eq!(b.args().cpu_format, "fc32");
    assert_eq!(b.args().otw_format, "sc16");
    assert_eq!(b.args().args, "");
    assert_eq!(b.args().channels, vec![0, 1]);
    let tx: TxUHD<f32> = native.build_tx(b);
    assert_eq!(tx.sample_num_max(), 1984);
    let data = vec![Complex32::new(0.5, -0.5); 1984];
    assert_eq!(native.send(&tx, &data).unwrap(), 1984);
}

#[test]
fn open_twice_makes_one_device() {
    let mut native = FakeNative::new(8);
    let mut d = one_device("addr=0");
    native.open(&mut d);
    native.open(&mut d);
    assert_eq!(native.makes, 1);
    assert!(d.open_call().is_none());
}

#[test]
fn control_plane_before_open_is_not_open() {
    let d = one_device("addr=0");
    assert!(matches!(d.use_usrp(), Err(SDRError::NotOpen)));
    assert!(matches!(d.new_tx_streamer(SampleType::F32, &[0]), Err(SDRError::NotOpen)));
    assert!(matches!(d.new_rx_streamer(SampleType::I16, &[0]), Err(SDRError::NotOpen)));
    assert_eq!(d.open_call().unwrap(), "addr=0");
}

#[test]
fn failed_open_leaves_device_closed() {
    let mut d = one_device("addr=9");
    let made = NativeHandle::acquire(HandleKind::Device, 1, 0, || unreachable!());
    assert!(matches!(d.open_complete(made), Err(SDRError::NotFound)));
    assert!(!d.is_open());
    assert!(d.open_call().is_some());
}

#[test]
fn acquire_release_cycles_balance() {
    let mut native = FakeNative::new(8);
    for i in 0..25 {
        let kind = if i % 2 == 0 { HandleKind::TxMetadata } else { HandleKind::StringVector };
        let h = native.make(kind);
        assert_eq!(h.kind(), kind);
        native.free(h);
    }
    assert_eq!(native.makes, 25);
    assert_eq!(native.frees, 25);
}

#[test]
fn tx_call_order() {
    let mut native = FakeNative::new(1984);
    let mut d = one_device("addr=0");
    native.open(&mut d);
    let usrp = d.use_usrp().unwrap();
    let _tx: TxUHD<i16> = native.build_tx(d.new_tx_streamer(SampleType::I16, &[0]).unwrap());
    assert_eq!(native.calls.len(), 4);
    assert_eq!(native.calls[0], StreamCall::MakeStreamer { rx: false });
    assert!(matches!(native.calls[1], StreamCall::Bind { rx: false, usrp: u, .. } if u == usrp));
    assert!(matches!(native.calls[2], StreamCall::QueryMax { rx: false, .. }));
    assert_eq!(native.calls[3], StreamCall::Finished);
}

#[test]
fn rx_call_order_starts_streaming() {
    let mut native = FakeNative::new(363);
    let mut d = one_device("addr=0");
    native.open(&mut d);
    let rx: RxUHD<i16> = native.build_rx(d.new_rx_streamer(SampleType::I16, &[0]).unwrap());
    assert_eq!(native.calls.len(), 6);
    assert_eq!(native.calls[0], StreamCall::MakeStreamer { rx: true });
    assert_eq!(native.calls[1], StreamCall::MakeMetadata);
    assert!(matches!(native.calls[2], StreamCall::Bind { rx: true, .. }));
    assert!(matches!(native.calls[3], StreamCall::QueryMax { rx: true, .. }));
    assert!(matches!(native.calls[4], StreamCall::StartContinuous { num_samps: 363, .. }));
    assert_eq!(native.calls[5], StreamCall::Finished);
    let plan = rx.recv_plan();
    assert_eq!(plan.capacity, 363);
    assert!(!plan.one_packet);
    let (s, m) = rx.release();
    assert_eq!(s.kind(), HandleKind::RxStreamer);
    assert_eq!(m.kind(), HandleKind::RxMetadata);
    assert_eq!(plan.streamer, s.raw());
    assert_eq!(plan.metadata, m.raw());
}

#[test]
fn failed_bind_frees_the_streamer() {
    let mut native = FakeNative::new(8);
    native.fail_bind = true;
    let mut d = one_device("addr=0");
    native.open(&mut d);
    let b = native.run(d.new_tx_streamer(SampleType::F32, &[0]).unwrap());
    assert_eq!(b.stage(), Stage::Failed);
    let (r, to_free) = b.finish_tx::<f32>();
    assert!(matches!(r, Err(SDRError::Unknown(44, _))));
    assert_eq!(to_free.len(), 1);
    assert_eq!(to_free[0].kind(), HandleKind::TxStreamer);
    for h in to_free {
        native.free(h);
    }
    // the device handle is the one still held
    assert_eq!(native.makes, native.frees + 1);
}

#[test]
fn failed_metadata_frees_the_streamer() {
    let mut native = FakeNative::new(8);
    native.fail_metadata = true;
    let mut d = one_device("addr=0");
    native.open(&mut d);
    let b = native.run(d.new_rx_streamer(SampleType::I16, &[0]).unwrap());
    let (r, to_free) = b.finish_rx::<i16>();
    match r {
        Err(SDRError::Unknown(44, m)) => assert_eq!(m, "no memory"),
        _ => panic!("expected the metadata error"),
    }
    assert_eq!(to_free.len(), 1);
    assert_eq!(to_free[0].kind(), HandleKind::RxStreamer);
}

#[test]
fn send_longer_than_max_is_a_parameter_error() {
    let mut native = FakeNative::new(1984);
    let mut d = one_device("addr=0");
    native.open(&mut d);
    let tx: TxUHD<i16> = native.build_tx(d.new_tx_streamer(SampleType::I16, &[0]).unwrap());
    let makes_before = native.makes;
    let data = vec![Complex::new(0i16, 0i16); 1985];
    match native.send(&tx, &data) {
        Err(SDRError::Param { key, value, msg }) => {
            assert_eq!(key, "v");
            assert_eq!(value, "len()=1985");
            assert_eq!(msg, "> max: 1984");
        }
        _ => panic!("expected a parameter error"),
    }
    assert_eq!(native.makes, makes_before);
    let plan = tx.send_plan(&data[..1984]).unwrap();
    assert_eq!(plan.len, 1984);
    assert!(plan.end_of_burst && !plan.start_of_burst && !plan.has_time_spec);
    assert_eq!(tx.send_plan(&data[..0]).unwrap().len, 0);
}

#[test]
fn recv_overflow_timeout_and_unknown() {
    let mut native = FakeNative::new(100);
    let mut d = one_device("addr=0");
    native.open(&mut d);
    let rx: RxUHD<i16> = native.build_rx(d.new_rx_streamer(SampleType::I16, &[0]).unwrap());
    assert!(matches!(native.recv(&rx, 50, 0x8), Err(SDRError::Overflow)));
    assert!(matches!(native.recv(&rx, 50, 0x1), Err(SDRError::TimeOut)));
    match native.recv(&rx, 50, 0x4) {
        Err(SDRError::Unknown(4, m)) => assert_eq!(m, "recv fail: uhd meta"),
        _ => panic!("expected an unknown error"),
    }
    assert_eq!(native.recv(&rx, 37, 0).unwrap().len(), 37);
    assert_eq!(native.recv(&rx, 0, 0).unwrap().len(), 0);
    let failed = rx.recv_complete(Err(SDRError::NotFound), 3, vec![Complex::new(0i16, 0i16); 100], 0);
    assert!(matches!(failed, Err(SDRError::NotFound)));
}

#[test]
fn recv_keeps_the_filled_samples_in_order() {
    let mut native = FakeNative::new(4);
    let mut d = one_device("addr=0");
    native.open(&mut d);
    let rx: RxUHD<i16> = native.build_rx(d.new_rx_streamer(SampleType::I16, &[0]).unwrap());
    let buf = vec![Complex::new(1i16, 2i16), Complex::new(3, 4), Complex::new(5, 6), Complex::new(7, 8)];
    let r = rx.recv_complete(Ok(()), 3, buf, 0).unwrap();
    assert_eq!(r, vec![Complex::new(1i16, 2i16), Complex::new(3, 4), Complex::new(5, 6)]);
}

#[test]
fn trait_streams_pick_format_pairs() {
    let mut native = FakeNative::new(8);
    let mut d = one_device("addr=0");
    native.open(&mut d);
    let usrp = d.use_usrp().unwrap();
    let rx = d.rx_stream(SampleType::F64, &[0]).unwrap();
    assert_eq!(rx.args().cpu_format, "fc64");
    assert_eq!(rx.args().otw_format, "sc16");
    assert_eq!(rx.next_call(), StreamCall::MakeStreamer { rx: true });
    let tx = d.tx_stream(SampleType::I16, &[0, 1]).unwrap();
    assert_eq!(tx.args().cpu_format, "sc16");
    assert_eq!(tx.args().otw_format, "sc16");
    assert_eq!(tx.args().channels, vec![0, 1]);
    let tx = native.run(tx);
    assert!(matches!(native.calls[1], StreamCall::Bind { rx: false, usrp: u, .. } if u == usrp));
    assert_eq!(tx.stage(), Stage::Ready);
    let closed = one_device("addr=1");
    assert!(matches!(closed.tx_stream(SampleType::F32, &[0]), Err(SDRError::NotOpen)));
    assert!(matches!(closed.rx_stream(SampleType::F64, &[0]), Err(SDRError::NotOpen)));
}

#[test]
fn release_names_the_free_of_the_acquired_handle() {
    let h = NativeHandle::acquire(HandleKind::RxMetadata, 0, 77, || unreachable!()).unwrap();
    assert_eq!(h.raw(), 77);
    assert_eq!(h.release(), HandleCall::Free(HandleKind::RxMetadata, 77));
}
