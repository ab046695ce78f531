use nusb::transfer::TransferError;
use rtlsdr_nusb::config::Settings;
use rtlsdr_nusb::protocol::{Halt, OutRequest, Reply, Request};
use rtlsdr_nusb::rtl2832u::Applied;
use rtlsdr_nusb::rx::processing::component;
use rtlsdr_nusb::rx::queue::{BulkInCompletion, DEFAULT_BUFFER_SIZE};
use rtlsdr_nusb::rx::receiver::{StartOperation, StartStage, StartStep};
use rtlsdr_nusb::session::{
    ClaimAvailability, ControlOperation, DeviceLifecycle, RxStreamClaim, Session,
};
use rtlsdr_nusb::tuners::registers::RegisterTables;
use rtlsdr_nusb::{
    DeviceDescriptor, Error, F32Iq, RawIq, Result, RxStream, SampleMode, StreamingStats,
    MAX_F32_IQ_SAMPLES_PER_TRANSFER,
};
use std::collections::{HashMap, VecDeque};

fn tables() -> RegisterTables {
    RegisterTables::new(
        [0x80; 27],
        vec![(0x0c, 0x00, 0x0f), (0x13, 0x31, 0x3f)],
        vec![(0x0b, 0x6b, 0xef), (0x06, 0x10, 0x10)],
        vec![(0x06, 0xb1, 0xff), (0x05, 0xa0, 0xff)],
        vec![(0, 8, 0x02, 0xdf), (50_000_000, 8, 0x02, 0xbe)],
        vec![(0, 8, 0x02, 0xdf), (60_000_000, 0, 0x02, 0x7b)],
    )
    .unwrap()
}

fn descriptor() -> DeviceDescriptor {
    DeviceDescriptor {
        index: 0,
        vid: 0x0bda,
        pid: 0x2838,
        serial: None,
        manufacturer: None,
        product: None,
    }
}

#[derive(Debug, PartialEq)]
enum Event {
    Control(OutRequest),
    QueueDropped,
}

#[derive(Default)]
struct Endpoint {
    submitted: VecDeque<Vec<u8>>,
    fail_next: bool,
    short_next: bool,
    timeout_next: bool,
}

impl Endpoint {
    fn complete(&mut self) -> BulkInCompletion {
        let mut buffer = self.submitted.pop_front().unwrap();
        for (i, byte) in buffer.iter_mut().enumerate() {
            *byte = (i % 256) as u8;
        }
        let actual_len = buffer.len() - if std::mem::take(&mut self.short_next) { 2 } else { 0 };
        let status = if std::mem::take(&mut self.fail_next) {
            Err(Error::Transfer(TransferError::Fault))
        } else {
            Ok(())
        };
        BulkInCompletion {
            buffer,
            actual_len,
            status,
        }
    }
}

/// A session with a receiver that answers its requests.
struct Bench {
    session: Session,
    tables: RegisterTables,
    sys_registers: HashMap<u16, u8>,
    out_count: usize,
    fail_out_at: usize,
    endpoint: Option<Endpoint>,
    bulk_in_count: usize,
    events: Vec<Event>,
}

impl Bench {
    fn new() -> Bench {
        let mut bench = Bench {
            session: Session::new(descriptor()),
            tables: tables(),
            sys_registers: HashMap::new(),
            out_count: 0,
            fail_out_at: 0,
            endpoint: None,
            bulk_in_count: 0,
            events: Vec::new(),
        };
        let result = bench.configure(Settings::default());
        assert!(bench.session.conclude_initialization(result).is_ok());
        bench
    }

    fn perform(&mut self, request: Request) -> Reply {
        match request {
            Request::In(read) => {
                let mut data = vec![0; usize::from(read.length)];
                if read.index == 0x600 && read.value == 0x34 {
                    data[0] = 0x69;
                    if data.len() >= 3 {
                        data[2] = 0x40u8.reverse_bits();
                    }
                    if data.len() >= 5 {
                        data[4] = 0x20u8.reverse_bits();
                    }
                }
                if read.index == 0x200 {
                    data[0] = *self.sys_registers.get(&read.value).unwrap_or(&0);
                }
                Ok(data)
            }
            Request::Out(write) => {
                self.out_count += 1;
                self.events.push(Event::Control(write.clone()));
                if self.out_count == self.fail_out_at {
                    return Err(TransferError::Fault);
                }
                if write.index == 0x210 {
                    self.sys_registers.insert(write.value, write.data[0]);
                }
                Ok(vec![])
            }
        }
    }

    /// Perform the whole operation.
    fn drive(&mut self, mut operation: ControlOperation) -> Result<Option<Applied>> {
        while let Some(request) = self.session.pending(&operation, &self.tables) {
            let reply = self.perform(request);
            operation.reply(reply);
        }
        match self.session.finish(operation, &self.tables) {
            Ok(applied) => Ok(applied),
            Err(Halt::Failed(error)) => Err(error),
            Err(Halt::Waiting) => panic!("an operation without a pending request waits"),
        }
    }

    /// Drop an operation whose first request is on its way.
    fn cancel(&mut self, operation: ControlOperation) {
        assert!(self.session.pending(&operation, &self.tables).is_some());
        self.out_count += 1;
        assert!(matches!(
            self.session.finish(operation, &self.tables),
            Err(Halt::Waiting)
        ));
    }

    fn configure(&mut self, settings: Settings) -> Result<Applied> {
        let operation = self.session.configure(settings)?;
        Ok(self.drive(operation)?.unwrap())
    }

    fn receiver_mode(&mut self, enabled: bool) -> Result<()> {
        let operation = self.session.receiver_mode(enabled)?;
        self.drive(operation)?;
        Ok(())
    }

    fn shutdown(&mut self) -> Result<()> {
        if let Some(operation) = self.session.shutdown()? {
            self.drive(operation)?;
        }
        Ok(())
    }

    fn stream<M: SampleMode>(&mut self) -> RxStream<M> {
        RxStream::new(RxStreamClaim::acquire(&mut self.session).unwrap())
    }

    fn submit(&mut self, buffer: Option<Vec<u8>>) {
        if let Some(buffer) = buffer {
            self.endpoint.as_mut().unwrap().submitted.push_back(buffer);
        }
    }

    /// Drop an endpoint that is not in use.
    fn sync<M: SampleMode>(&mut self, rx: &RxStream<M>) {
        if !rx.uses_endpoint() && self.endpoint.take().is_some() {
            self.events.push(Event::QueueDropped);
        }
    }

    fn step(&mut self, start: &StartOperation) -> Result<usize> {
        match &start.stage {
            StartStage::SwitchOff | StartStage::Fallback(_) => self.receiver_mode(false)?,
            StartStage::SwitchOn => self.receiver_mode(true)?,
            StartStage::OpenEndpoint => {
                self.bulk_in_count += 1;
                self.endpoint = Some(Endpoint::default());
            }
            StartStage::ClearHalt => {}
        }
        Ok(0)
    }

    fn start<M: SampleMode>(&mut self, rx: &mut RxStream<M>) -> Result<()> {
        let Some(mut start) = rx.start()? else {
            return Ok(());
        };
        self.sync(rx);
        loop {
            let result = self.step(&start);
            match rx.advance_start(start, result) {
                StartStep::Continue(next) => start = next,
                StartStep::Started(buffers) => {
                    for buffer in buffers {
                        self.submit(Some(buffer));
                    }
                    return Ok(());
                }
                StartStep::Failed(error) => return Err(error),
            }
        }
    }

    fn stop<M: SampleMode>(&mut self, rx: &mut RxStream<M>) -> Result<StreamingStats> {
        if rx.stop() {
            let result = self.receiver_mode(false);
            let pending = self.endpoint.as_ref().map_or(0, |e| e.submitted.len());
            let buffer = rx.conclude_stop(result, pending)?;
            self.submit(buffer);
        }
        Ok(rx.stats())
    }

    fn close<M: SampleMode>(&mut self, rx: RxStream<M>) -> Result<StreamingStats> {
        let (mut claim, stats) = rx.close();
        if self.endpoint.take().is_some() {
            self.events.push(Event::QueueDropped);
        }
        let result = if claim.begin_stop() {
            self.receiver_mode(false)
        } else {
            Ok(())
        };
        if let Err(error) = claim.conclude_close(&mut self.session, result) {
            self.abandon(claim);
            return Err(error);
        }
        assert!(!claim.cleanup_armed());
        Ok(stats)
    }

    fn abandon(&mut self, mut claim: RxStreamClaim) {
        if claim.cleanup_armed() {
            let stopped = !claim.cleanup() || self.receiver_mode(false).is_ok();
            self.session.conclude_cleanup(stopped);
        }
    }

    fn drop_stream<M: SampleMode>(&mut self, rx: RxStream<M>) {
        let (claim, _) = rx.close();
        if self.endpoint.take().is_some() {
            self.events.push(Event::QueueDropped);
        }
        self.abandon(claim);
    }

    /// Read the next block. The result is its bytes and the samples dropped so far.
    fn next_block(&mut self, rx: &mut RxStream<RawIq>) -> Result<Option<(Vec<u8>, u64)>> {
        let buffer = rx.next_block(&self.session)?;
        self.submit(buffer);
        let filled = self.fill_raw(rx);
        self.sync(rx);
        if !filled? {
            return Ok(None);
        }
        let block = rx.current_block()?;
        assert_eq!(block.raw_bytes().len(), 2 * block.sample_count());
        Ok(Some((block.raw_bytes().to_vec(), block.dropped_samples())))
    }

    fn fill_raw(&mut self, rx: &mut RxStream<RawIq>) -> Result<bool> {
        while rx.needs_completion()? {
            let endpoint = self.endpoint.as_mut().unwrap();
            if std::mem::take(&mut endpoint.timeout_next) {
                return Ok(false);
            }
            let completion = endpoint.complete();
            assert!(rx.countable(completion.actual_len));
            let buffer = rx.accept(completion)?;
            self.submit(buffer);
        }
        Ok(true)
    }

    fn read(&mut self, rx: &mut RxStream<F32Iq>, wanted: usize) -> Result<Vec<(f32, f32)>> {
        while rx.begin_read(&self.session, wanted)? {
            let completion = self.endpoint.as_mut().unwrap().complete();
            assert!(rx.countable(completion.actual_len));
            let result = rx.accept(completion);
            self.sync(rx);
            self.submit(result?);
        }
        let (samples, buffer) = rx.read(wanted);
        self.submit(buffer);
        let value = |byte| f32::from(component(byte)) / 255.0;
        Ok(samples.iter().map(|&(i, q)| (value(i), value(q))).collect())
    }

    fn endpoint(&mut self) -> &mut Endpoint {
        self.endpoint.as_mut().unwrap()
    }
}

#[test]
fn claims_survive_stop_and_prevent_shutdown_until_close() {
    let mut bench = Bench::new();
    let mut rx: RxStream<F32Iq> = bench.stream();
    assert!(matches!(
        RxStreamClaim::acquire(&mut bench.session),
        Err(Error::Busy)
    ));
    assert!(matches!(bench.shutdown(), Err(Error::Busy)));
    assert_eq!(bench.session.state().device, DeviceLifecycle::Open);
    bench.start(&mut rx).unwrap();
    bench.stop(&mut rx).unwrap();
    assert!(matches!(
        RxStreamClaim::acquire(&mut bench.session),
        Err(Error::Busy)
    ));
    bench.close(rx).unwrap();
    bench.shutdown().unwrap();
    assert!(matches!(
        RxStreamClaim::acquire(&mut bench.session),
        Err(Error::DeviceClosed)
    ));
}

#[test]
fn stream_owns_session_and_final_drop_powers_down_after_queue_release() {
    let mut bench = Bench::new();
    let mut rx: RxStream<RawIq> = bench.stream();
    bench.start(&mut rx).unwrap();
    assert!(bench.next_block(&mut rx).unwrap().is_some());
    bench.stop(&mut rx).unwrap();
    bench.start(&mut rx).unwrap();
    bench.events.clear();
    bench.drop_stream(rx);
    let cleanup = bench.session.final_cleanup().unwrap();
    bench.drive(cleanup).unwrap();
    let queue = bench
        .events
        .iter()
        .position(|e| *e == Event::QueueDropped)
        .unwrap();
    let power = bench
        .events
        .iter()
        .position(|e| matches!(e, Event::Control(r) if r.value == 0x3000 && r.data == [0x20]))
        .unwrap();
    assert!(queue < power);
    assert_eq!(bench.sys_registers[&0x3001] & 1, 0);
}

#[test]
fn blocking_and_async_reads_share_conversion_offset_and_queue() {
    let mut bench = Bench::new();
    let mut rx: RxStream<F32Iq> = bench.stream();
    bench.start(&mut rx).unwrap();
    let out = bench.read(&mut rx, 1).unwrap();
    assert_eq!(out.len(), 1);
    assert_eq!(out[0].0, -1.0);
    assert_eq!(out[0].1, (1.0 - 127.5) / 127.5);
    let out = bench.read(&mut rx, 1).unwrap();
    assert_eq!(out.len(), 1);
    assert_eq!(out[0].0, (2.0 - 127.5) / 127.5);
    assert_eq!(out[0].1, (3.0 - 127.5) / 127.5);
    assert_eq!(bench.bulk_in_count, 1);
    assert_eq!(rx.stats().buffers_received, 1);
    bench.close(rx).unwrap();
    bench.shutdown().unwrap();
}

#[test]
fn canceled_read_keeps_pending_transfers_and_claim() {
    let mut bench = Bench::new();
    let mut rx: RxStream<RawIq> = bench.stream();
    bench.start(&mut rx).unwrap();
    // A read that is dropped while it waits for a completion.
    let buffer = rx.next_block(&bench.session).unwrap();
    bench.submit(buffer);
    assert!(rx.needs_completion().unwrap());
    assert!(matches!(
        RxStreamClaim::acquire(&mut bench.session),
        Err(Error::Busy)
    ));
    let (raw, _) = bench.next_block(&mut rx).unwrap().unwrap();
    assert_eq!(raw.len(), DEFAULT_BUFFER_SIZE);
    assert_eq!(&raw[..4], &[0, 1, 2, 3]);
    assert_eq!(bench.bulk_in_count, 1);
}

#[test]
fn short_even_completions_are_data_and_blocking_timeout_is_retryable() {
    let mut bench = Bench::new();
    let mut rx: RxStream<RawIq> = bench.stream();
    bench.start(&mut rx).unwrap();
    bench.endpoint().short_next = true;
    assert_eq!(
        bench.next_block(&mut rx).unwrap().unwrap().0.len(),
        DEFAULT_BUFFER_SIZE - 2
    );
    bench.endpoint().timeout_next = true;
    assert!(bench.next_block(&mut rx).unwrap().is_none());
    assert!(bench.next_block(&mut rx).unwrap().is_some());
}

#[test]
fn restart_reuses_queue_and_discards_every_old_submission() {
    let mut bench = Bench::new();
    let mut rx: RxStream<RawIq> = bench.stream();
    bench.start(&mut rx).unwrap();
    bench.next_block(&mut rx).unwrap().unwrap();
    bench.stop(&mut rx).unwrap();
    bench.start(&mut rx).unwrap();
    bench.next_block(&mut rx).unwrap().unwrap();
    assert_eq!(bench.bulk_in_count, 1);
    assert_eq!(rx.stats().buffers_discarded_on_restart, 8);
}

#[test]
fn failed_read_requires_stop_before_rebuilding_queue() {
    let mut bench = Bench::new();
    let mut rx: RxStream<RawIq> = bench.stream();
    bench.start(&mut rx).unwrap();
    bench.endpoint().fail_next = true;
    assert!(bench.next_block(&mut rx).is_err());
    assert!(matches!(bench.start(&mut rx), Err(Error::Busy)));
    bench.stop(&mut rx).unwrap();
    bench.start(&mut rx).unwrap();
    assert!(bench.next_block(&mut rx).unwrap().is_some());
    assert_eq!(bench.bulk_in_count, 2);
}

#[test]
fn canceled_start_and_stop_require_cleanup_and_can_recover() {
    let mut bench = Bench::new();
    let mut rx: RxStream<RawIq> = bench.stream();
    // A start that is dropped while the halt is being cleared.
    let mut start = rx.start().unwrap().unwrap();
    while !matches!(start.stage, StartStage::ClearHalt) {
        let result = bench.step(&start);
        match rx.advance_start(start, result) {
            StartStep::Continue(next) => start = next,
            _ => panic!("the start is not done"),
        }
    }
    drop(start);
    assert!(matches!(bench.start(&mut rx), Err(Error::Busy)));
    bench.stop(&mut rx).unwrap();
    bench.start(&mut rx).unwrap();
    // A stop that is dropped while its first request is on its way.
    assert!(rx.stop());
    let operation = bench.session.receiver_mode(false).unwrap();
    bench.cancel(operation);
    assert!(matches!(
        bench.next_block(&mut rx),
        Err(Error::StreamClosed { .. })
    ));
    bench.stop(&mut rx).unwrap();
    bench.start(&mut rx).unwrap();
    assert!(bench.next_block(&mut rx).unwrap().is_some());
}

#[test]
fn lazy_shutdown_is_terminal_once_started_and_retryable_after_cancellation() {
    let mut bench = Bench::new();
    let rx: RxStream<RawIq> = bench.stream();
    bench.drop_stream(rx);
    let count = bench.out_count;
    let operation = bench.session.shutdown().unwrap().unwrap();
    assert_eq!(bench.out_count, count);
    bench.cancel(operation);
    assert!(matches!(bench.session.ensure_open(), Err(Error::DeviceClosed)));
    bench.shutdown().unwrap();
    let count = bench.out_count;
    bench.shutdown().unwrap();
    assert_eq!(bench.out_count, count);
}

#[test]
fn failed_shutdown_still_attempts_bias_and_power_cleanup() {
    let mut bench = Bench::new();
    let rx: RxStream<RawIq> = bench.stream();
    bench.drop_stream(rx);
    bench.sys_registers.insert(0x3001, 1);
    bench.fail_out_at = bench.out_count + 1;
    assert!(bench.shutdown().is_err());
    assert_eq!(bench.sys_registers[&0x3001] & 1, 0);
    assert_eq!(bench.sys_registers[&0x3000], 0x20);
    bench.shutdown().unwrap();
}

#[test]
fn canceled_configuration_invalidates_reads_and_full_retry_recovers() {
    let mut bench = Bench::new();
    let mut rx: RxStream<RawIq> = bench.stream();
    bench.start(&mut rx).unwrap();
    let operation = bench.session.configure(Settings::default()).unwrap();
    assert!(bench.session.pending(&operation, &bench.tables).is_some());
    assert!(matches!(bench.receiver_mode(true), Err(Error::Busy)));
    bench.cancel(operation);
    assert!(matches!(
        bench.next_block(&mut rx),
        Err(Error::ConfigurationUnknown)
    ));
    bench.configure(Settings::default()).unwrap();
    bench.stop(&mut rx).unwrap();
    bench.start(&mut rx).unwrap();
    assert!(bench.next_block(&mut rx).unwrap().is_some());
}

#[test]
fn counters_and_dropped_samples_add_up() {
    let mut bench = Bench::new();
    let mut rx: RxStream<RawIq> = bench.stream();
    bench.start(&mut rx).unwrap();
    bench.next_block(&mut rx).unwrap();
    bench.next_block(&mut rx).unwrap();
    assert_eq!(
        rx.stats(),
        StreamingStats {
            buffers_received: 2,
            buffers_processed: 2,
            buffers_dropped: 0,
            buffers_discarded_on_restart: 0,
        }
    );
    // The block that is open was delivered: the stop drops nothing.
    assert_eq!(
        bench.stop(&mut rx).unwrap(),
        StreamingStats {
            buffers_received: 2,
            buffers_processed: 2,
            buffers_dropped: 0,
            buffers_discarded_on_restart: 0,
        }
    );
    bench.start(&mut rx).unwrap();
    let (_, dropped) = bench.next_block(&mut rx).unwrap().unwrap();
    assert_eq!(dropped, 8 * (DEFAULT_BUFFER_SIZE / 2) as u64);
    assert_eq!(
        rx.stats(),
        StreamingStats {
            buffers_received: 11,
            buffers_processed: 3,
            buffers_dropped: 8,
            buffers_discarded_on_restart: 8,
        }
    );
    bench.endpoint().fail_next = true;
    assert!(bench.next_block(&mut rx).is_err());
    // The counters outlive the queue.
    assert_eq!(rx.stats().buffers_received, 12);
    assert_eq!(rx.stats().buffers_dropped, 9);
    assert_eq!(bench.close(rx).unwrap().buffers_received, 12);
}

#[test]
fn a_delivered_block_is_not_dropped_by_a_stop() {
    let mut bench = Bench::new();
    let mut rx: RxStream<RawIq> = bench.stream();
    bench.start(&mut rx).unwrap();
    assert!(bench.next_block(&mut rx).unwrap().is_some());
    assert_eq!(
        bench.stop(&mut rx).unwrap(),
        StreamingStats {
            buffers_received: 1,
            buffers_processed: 1,
            buffers_dropped: 0,
            buffers_discarded_on_restart: 0,
        }
    );
    assert_eq!(bench.endpoint().submitted.len(), 8);
}

#[test]
fn a_block_with_unread_samples_is_dropped_by_a_stop() {
    let mut bench = Bench::new();
    let mut rx: RxStream<F32Iq> = bench.stream();
    bench.start(&mut rx).unwrap();
    assert_eq!(bench.read(&mut rx, 10).unwrap().len(), 10);
    let stats = bench.stop(&mut rx).unwrap();
    assert_eq!((stats.buffers_processed, stats.buffers_dropped), (1, 1));
    // A block that was read to its end is not.
    bench.start(&mut rx).unwrap();
    let all = bench.read(&mut rx, MAX_F32_IQ_SAMPLES_PER_TRANSFER).unwrap();
    assert_eq!(all.len(), MAX_F32_IQ_SAMPLES_PER_TRANSFER);
    let stats = bench.stop(&mut rx).unwrap();
    assert_eq!((stats.buffers_processed, stats.buffers_dropped), (2, 9));
}

#[test]
fn unexpected_lengths_break_the_stream() {
    for (len, size) in [(0, 4), (3, 4), (6, 4)] {
        let mut bench = Bench::new();
        let mut rx: RxStream<RawIq> = bench.stream();
        bench.start(&mut rx).unwrap();
        rx.next_block(&bench.session).unwrap();
        let result = rx.accept(BulkInCompletion {
            buffer: vec![0; size],
            actual_len: len,
            status: Ok(()),
        });
        assert!(matches!(
            result,
            Err(Error::Protocol {
                operation: "receive transfer",
                reason: "completed with an unexpected length",
            })
        ));
        assert!(!rx.uses_endpoint());
        assert!(matches!(rx.next_block(&bench.session), Err(Error::StreamClosed { .. })));
    }
}

#[test]
fn reads_drain_a_block_before_the_next() {
    let mut bench = Bench::new();
    let mut rx: RxStream<F32Iq> = bench.stream();
    bench.start(&mut rx).unwrap();
    assert!(bench.read(&mut rx, 0).unwrap().is_empty());
    assert_eq!(rx.stats().buffers_received, 0);
    let first = bench.read(&mut rx, MAX_F32_IQ_SAMPLES_PER_TRANSFER - 1).unwrap();
    assert_eq!(first.len(), MAX_F32_IQ_SAMPLES_PER_TRANSFER - 1);
    assert_eq!(first[127], ((254.0 - 127.5) / 127.5, 1.0));
    assert_eq!(bench.endpoint().submitted.len(), 7);
    // A read does not go past the end of a block, whose buffer then is submitted again.
    assert_eq!(bench.read(&mut rx, 10).unwrap().len(), 1);
    assert_eq!(bench.endpoint().submitted.len(), 8);
    assert_eq!(rx.stats().buffers_received, 1);
    assert_eq!(bench.read(&mut rx, 10).unwrap().len(), 10);
    assert_eq!(rx.stats().buffers_received, 2);
}

#[test]
fn components_map_evenly_to_the_unit_range() {
    for byte in 0..=255u8 {
        let exact = (f32::from(byte) - 127.5) / 127.5;
        assert_eq!(f32::from(component(byte)) / 255.0, exact);
    }
    assert_eq!(component(0), -255);
    assert_eq!(component(255), 255);
}

#[test]
fn a_failed_start_switches_off_and_reports_the_failure() {
    let mut bench = Bench::new();
    let mut rx: RxStream<RawIq> = bench.stream();
    // The second request switches the endpoint on.
    bench.fail_out_at = bench.out_count + 2;
    assert!(matches!(
        bench.start(&mut rx),
        Err(Error::Transfer(TransferError::Fault))
    ));
    let last = bench.events.last().unwrap();
    assert!(matches!(last, Event::Control(r) if r.value == 0x2148 && r.data == [0x10, 0x02]));
    assert!(matches!(bench.start(&mut rx), Err(Error::Busy)));
    bench.stop(&mut rx).unwrap();
    bench.start(&mut rx).unwrap();
    // A running stream has nothing to start.
    assert!(rx.start().unwrap().is_none());
}

#[test]
fn a_claim_that_cannot_be_cleaned_up_stays_reserved() {
    let mut bench = Bench::new();
    let mut rx: RxStream<RawIq> = bench.stream();
    bench.start(&mut rx).unwrap();
    bench.fail_out_at = bench.out_count + 1;
    bench.drop_stream(rx);
    assert_eq!(bench.session.state().claim, ClaimAvailability::CleanupRequired);
    assert!(matches!(
        RxStreamClaim::acquire(&mut bench.session),
        Err(Error::Busy)
    ));
    // It is not in the way of a shutdown, which gives it back.
    bench.shutdown().unwrap();
    assert_eq!(bench.session.state().claim, ClaimAvailability::Available);
    assert_eq!(bench.session.state().device, DeviceLifecycle::Closed);
    assert!(bench.session.final_cleanup().is_none());
}

#[test]
fn a_failed_close_is_cleaned_up() {
    let mut bench = Bench::new();
    let mut rx: RxStream<RawIq> = bench.stream();
    bench.start(&mut rx).unwrap();
    bench.fail_out_at = bench.out_count + 1;
    assert!(matches!(
        bench.close(rx),
        Err(Error::Transfer(TransferError::Fault))
    ));
    assert_eq!(bench.session.state().claim, ClaimAvailability::Available);
}

#[test]
fn a_failed_initialization_shuts_down_and_reports_its_error() {
    let mut session = Session::new(descriptor());
    let conclusion = session.conclude_initialization(Err(Error::UnsupportedTuner));
    let (error, cleanup) = conclusion.unwrap_err();
    assert!(matches!(error, Error::UnsupportedTuner));
    assert!(cleanup.is_some());
    assert_eq!(session.state().device, DeviceLifecycle::Closing);
    assert!(session.info().is_none());
    assert!(session.descriptor().serial.is_none());
}

#[test]
fn a_configured_session_knows_its_device() {
    let bench = Bench::new();
    let info = bench.session.info().unwrap();
    assert_eq!(info.descriptor, descriptor());
    assert!(!info.rtl_sdr_blog_v4);
    assert!(bench.session.ensure_configured().is_ok());
    let fresh = Session::new(descriptor());
    assert!(fresh.ensure_open().is_ok());
    assert!(matches!(
        fresh.ensure_configured(),
        Err(Error::ConfigurationUnknown)
    ));
}
