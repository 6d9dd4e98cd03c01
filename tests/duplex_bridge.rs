use interflow::config::{AudioCallbackContext, StreamConfig};
use interflow::duplex::{
    chunk_len, chunk_samples, create_duplex_stream, plan_rate_change, DuplexCallback,
    DuplexCallbackError, InputProxy, RateChange, CHUNK_FRAMES,
};
use interflow::mailbox::mailbox;
use interflow::stream::{AudioInputDevice, AudioOutputDevice, AudioStreamHandle};
use std::cell::Cell;
use std::rc::Rc;

#[test]
fn mailbox_full_send_hands_value_back() {
    let (mut tx, mut rx) = mailbox::<u32>();
    assert_eq!(tx.send(44100), Ok(()));
    assert_eq!(tx.send(48000), Err(48000));
    assert_eq!(rx.try_receive(), Some(44100));
    assert_eq!(tx.send(48000), Ok(()));
    assert_eq!(rx.try_receive(), Some(48000));
}

#[test]
fn empty_mailbox_polled_twice_is_absent_twice() {
    let (mut tx, mut rx) = mailbox::<u32>();
    assert_eq!(rx.try_receive(), None);
    assert_eq!(rx.try_receive(), None);
    assert_eq!(tx.send(7), Ok(()));
    assert_eq!(rx.try_receive(), Some(7));
}

#[test]
fn channel_count_counts_set_bits() {
    let c = |channels: u64| StreamConfig { samplerate: 48000, channels }.channel_count();
    assert_eq!(c(0), 0);
    assert_eq!(c(0b1), 1);
    assert_eq!(c(0b1011), 3);
    assert_eq!(c(1 << 63), 1);
    assert_eq!(c(u64::MAX), 64);
}

#[test]
fn plan_rate_change_cases() {
    assert_eq!(plan_rate_change(None, 2, 48000), RateChange::Unchanged);
    assert_eq!(plan_rate_change(Some(44100), 0, 48000), RateChange::NoInputChannels);
    assert_eq!(plan_rate_change(Some(0), 1, 48000), RateChange::ZeroSampleRate);
    assert_eq!(plan_rate_change(Some(44100), 1, 0), RateChange::ZeroSampleRate);
    assert_eq!(
        plan_rate_change(Some(44100), 1, 48000),
        RateChange::Rebuild { num_channels: 1, input_samplerate: 48000, output_samplerate: 44100 }
    );
}

#[test]
fn chunks_cover_capture() {
    assert_eq!(chunk_len(480, 0), CHUNK_FRAMES);
    assert_eq!(chunk_len(480, 448), 32);
    assert_eq!(chunk_len(100, 96), 4);
    assert_eq!(chunk_len(1, 0), 1);
    let mut start = 0usize;
    let mut n = 0usize;
    while start < 100 {
        start += chunk_len(100, start);
        n += 1;
    }
    assert_eq!((start, n), (100, 4));
    assert_eq!(chunk_samples(32, 64), 2048);
    assert_eq!(chunk_samples(4, 2), 8);
}

#[test]
fn proxy_builds_channel_for_signalled_rate() {
    let (mut proxy, mut send_rate, mut receive_consumer) = InputProxy::<u8, u16>::new();
    assert_eq!(proxy.poll_rate_change(1, 48000), RateChange::Unchanged);
    assert!(proxy.producer_mut().is_none());
    assert_eq!(send_rate.send(44100), Ok(()));
    assert_eq!(
        proxy.poll_rate_change(1, 48000),
        RateChange::Rebuild { num_channels: 1, input_samplerate: 48000, output_samplerate: 44100 }
    );
    assert_eq!(proxy.poll_rate_change(1, 48000), RateChange::Unchanged);
    assert_eq!(proxy.install_channel(1, 100), Ok(()));
    assert_eq!(proxy.producer_mut(), &mut Some(1));
    assert_eq!(proxy.install_channel(2, 200), Err(200));
    assert_eq!(proxy.producer_mut(), &mut Some(2));
    assert_eq!(receive_consumer.try_receive(), Some(100));
    assert_eq!(receive_consumer.try_receive(), None);
}

#[test]
fn proxy_without_channels_skips_cycle() {
    let (mut proxy, mut send_rate, _receive_consumer) = InputProxy::<u8, u16>::new();
    assert_eq!(send_rate.send(44100), Ok(()));
    assert_eq!(proxy.poll_rate_change(0, 48000), RateChange::NoInputChannels);
    assert!(proxy.producer_mut().is_none());
}

fn bridge() -> (InputProxy<u32, u32>, DuplexCallback<&'static str, u32, Vec<u8>>) {
    let (proxy, send_rate, receive_consumer) = InputProxy::new();
    let callback = DuplexCallback::new(receive_consumer, send_rate, "user", vec![0u8; 4], 4);
    (proxy, callback)
}

#[test]
fn steady_output_rate_builds_one_channel() {
    let (mut proxy, mut callback) = bridge();
    let mut built = 0u32;
    for _ in 0..5 {
        callback.update_samplerate(44100);
        if let RateChange::Rebuild { .. } = proxy.poll_rate_change(2, 48000) {
            built += 1;
            assert_eq!(proxy.install_channel(built, built), Ok(()));
        }
        callback.receive_input();
    }
    assert_eq!(built, 1);
    assert_eq!(callback.parts_mut().0, &mut Some(1));
}

#[test]
fn each_rate_change_builds_one_channel_in_order() {
    let (mut proxy, mut callback) = bridge();
    let rates = [44100u32, 44100, 48000, 48000, 96000, 44100, 44100];
    let mut built = Vec::new();
    let mut adopted = Vec::new();
    for rate in rates {
        callback.update_samplerate(rate);
        if let RateChange::Rebuild { output_samplerate, .. } = proxy.poll_rate_change(1, 48000) {
            built.push(output_samplerate);
            assert_eq!(proxy.install_channel(output_samplerate, output_samplerate), Ok(()));
        }
        if callback.receive_input() {
            adopted.push(callback.parts_mut().0.unwrap());
        }
    }
    assert_eq!(built, vec![44100, 48000, 96000, 44100]);
    assert_eq!(adopted, built);
}

#[test]
fn rate_is_resent_after_full_mailbox() {
    let (mut proxy, mut callback) = bridge();
    assert!(callback.update_samplerate(44100));
    assert!(!callback.update_samplerate(44100));
    assert!(!callback.update_samplerate(48000));
    assert_eq!(
        proxy.poll_rate_change(1, 48000),
        RateChange::Rebuild { num_channels: 1, input_samplerate: 48000, output_samplerate: 44100 }
    );
    assert!(callback.update_samplerate(48000));
}

#[test]
fn frames_read_bounded_by_storage_and_supply() {
    let (_proxy, callback) = bridge();
    assert_eq!(callback.frames_to_read(512, 0), 0);
    assert_eq!(callback.frames_to_read(512, 3), 3);
    assert_eq!(callback.frames_to_read(512, 4), 4);
    assert_eq!(callback.frames_to_read(512, 440), 4);
    assert_eq!(callback.frames_to_read(2, 3), 2);
    assert_eq!(callback.frames_to_read(0, 3), 0);
}

#[test]
fn callback_storage_sized_from_input_config() {
    let (_proxy, send_rate, receive_consumer) = InputProxy::<u32, u32>::new();
    let config = StreamConfig { samplerate: 48000, channels: 0b11 };
    let callback = DuplexCallback::for_input_config(receive_consumer, send_rate, "user", (), config);
    assert_eq!(callback.frames_to_read(100000, 100000), 48000);
    assert_eq!(callback.frames_to_read(100000, 480), 480);
    assert_eq!(callback.frames_to_read(5, 8), 5);
}

#[test]
fn adopt_input_replaces_channel() {
    let (_proxy, mut callback) = bridge();
    assert!(callback.adopt_input(Some(3)));
    assert!(!callback.adopt_input(None));
    assert_eq!(callback.parts_mut().0, &mut Some(3));
    assert!(callback.adopt_input(Some(4)));
    assert_eq!(callback.parts_mut().0, &mut Some(4));
}

#[test]
fn no_channel_means_no_input() {
    let (_proxy, mut callback) = bridge();
    assert!(!callback.receive_input());
    assert!(callback.parts_mut().0.is_none());
    assert_eq!(callback.into_inner(), Ok("user"));
}

type Proxy = InputProxy<u32, u32>;
type Callback = DuplexCallback<&'static str, u32, Vec<u8>>;

struct InputHandle {
    fail: bool,
}

impl AudioStreamHandle<Proxy> for InputHandle {
    type Error = &'static str;
    fn ejects_as(&self, outcome: Result<Proxy, &'static str>) -> bool {
        outcome.is_err() == self.fail
    }
    fn eject(self) -> Result<Proxy, &'static str> {
        if self.fail {
            Err("input stuck")
        } else {
            Ok(InputProxy::new().0)
        }
    }
}

struct OutputHandle {
    callback: Callback,
    fail: bool,
    ejections: Rc<Cell<u32>>,
}

impl AudioStreamHandle<Callback> for OutputHandle {
    type Error = u32;
    fn ejects_as(&self, outcome: Result<Callback, u32>) -> bool {
        outcome.is_err() == self.fail
    }
    fn eject(self) -> Result<Callback, u32> {
        self.ejections.set(self.ejections.get() + 1);
        if self.fail {
            Err(5)
        } else {
            Ok(self.callback)
        }
    }
}

struct InputDevice {
    fail_open: bool,
    fail_stop: bool,
}

impl AudioInputDevice<Proxy> for InputDevice {
    type Error = &'static str;
    type StreamHandle = InputHandle;
    fn opens_as(&self, _config: StreamConfig, _callback: Proxy, outcome: Result<InputHandle, &'static str>) -> bool {
        outcome.is_err() == self.fail_open
    }
    fn create_input_stream(&self, _config: StreamConfig, _callback: Proxy) -> Result<InputHandle, &'static str> {
        if self.fail_open {
            Err("no input")
        } else {
            Ok(InputHandle { fail: self.fail_stop })
        }
    }
}

struct OutputDevice {
    fail_open: bool,
    fail_stop: bool,
    ejections: Rc<Cell<u32>>,
}

impl AudioOutputDevice<Callback> for OutputDevice {
    type Error = u32;
    type StreamHandle = OutputHandle;
    fn opens_as(&self, _config: StreamConfig, _callback: Callback, outcome: Result<OutputHandle, u32>) -> bool {
        outcome.is_err() == self.fail_open
    }
    fn create_output_stream(&self, _config: StreamConfig, callback: Callback) -> Result<OutputHandle, u32> {
        if self.fail_open {
            Err(9)
        } else {
            Ok(OutputHandle { callback, fail: self.fail_stop, ejections: self.ejections.clone() })
        }
    }
}

fn open(
    input: InputDevice,
    output: OutputDevice,
) -> Result<interflow::duplex::DuplexStreamHandle<InputHandle, OutputHandle>, DuplexCallbackError<&'static str, u32>> {
    let input_config = StreamConfig { samplerate: 48000, channels: 0b1 };
    let output_config = StreamConfig { samplerate: 44100, channels: 0b11 };
    create_duplex_stream(input, input_config, output, output_config, "user", vec![0u8; 48000])
}

#[test]
fn eject_returns_user_callback() {
    let ejections = Rc::new(Cell::new(0));
    let handle = open(
        InputDevice { fail_open: false, fail_stop: false },
        OutputDevice { fail_open: false, fail_stop: false, ejections: ejections.clone() },
    )
    .ok()
    .unwrap();
    assert!(matches!(handle.eject(), Ok("user")));
    assert_eq!(ejections.get(), 1);
}

#[test]
fn eject_with_stuck_input_reports_input_error() {
    let ejections = Rc::new(Cell::new(0));
    let handle = open(
        InputDevice { fail_open: false, fail_stop: true },
        OutputDevice { fail_open: false, fail_stop: false, ejections: ejections.clone() },
    )
    .ok()
    .unwrap();
    assert!(matches!(handle.eject(), Err(DuplexCallbackError::InputError("input stuck"))));
    assert_eq!(ejections.get(), 0);
}

#[test]
fn eject_with_stuck_output_reports_output_error() {
    let ejections = Rc::new(Cell::new(0));
    let handle = open(
        InputDevice { fail_open: false, fail_stop: false },
        OutputDevice { fail_open: false, fail_stop: true, ejections: ejections.clone() },
    )
    .ok()
    .unwrap();
    assert!(matches!(handle.eject(), Err(DuplexCallbackError::OutputError(5))));
    assert_eq!(ejections.get(), 1);
}

#[test]
fn create_reports_side_that_failed() {
    let ejections = Rc::new(Cell::new(0));
    let r = open(
        InputDevice { fail_open: true, fail_stop: false },
        OutputDevice { fail_open: false, fail_stop: false, ejections: ejections.clone() },
    );
    assert!(matches!(r, Err(DuplexCallbackError::InputError("no input"))));
    let r = open(
        InputDevice { fail_open: false, fail_stop: false },
        OutputDevice { fail_open: true, fail_stop: false, ejections },
    );
    assert!(matches!(r, Err(DuplexCallbackError::OutputError(9))));
}

#[test]
fn callback_context_carries_config() {
    let context = AudioCallbackContext {
        timestamp: 0,
        stream_config: StreamConfig { samplerate: 48000, channels: 0b1 },
    };
    assert_eq!(context.stream_config.channel_count(), 1);
}
