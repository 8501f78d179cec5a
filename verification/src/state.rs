//! The two façades over the telemetry core.
//!
//! `SimState` faces the producer: it owns the exit flag, the three event
//! buses and the precomputed sensor memory, publishes events and answers
//! memory reads.  `RenderState` faces the consumer: one rolling window per
//! stream, drained once per visualization frame.  The consumer's only
//! mutation of the shared state is latching the exit flag.

use crate::bus::{EventBus, PublishError};
use crate::decode::{decode_rgb, decoded_rgb};
use crate::events::{AddressReadEvent, AddressRequestEvent, PixelEvent};
use crate::geometry::{ADDRESS_COUNT, SENSOR_HEIGHT, SOURCE_WIDTH};
use crate::memory::{spec_sample, SensorMemoryModel, NO_DATA};
use crate::queue::{resync_cursor, take_last, DrainError, EventQueue};
use vstd::prelude::*;

verus! {

/// Events each bus retains before the oldest is overwritten.
pub const BUS_CAPACITY: usize = 1024 * 1024;

/// Pixel-draw events a render state keeps for decayed visualization.
pub const PIXEL_HISTORY_LIMIT: usize = 1024 * 100;

/// Address-read events a render state keeps.
pub const READ_HISTORY_LIMIT: usize = 1024 * 100;

/// Address-request events a render state keeps.
pub const REQUEST_HISTORY_LIMIT: usize = 1024 * 100 / 64;

/// The producer-facing simulation state: exit flag, one bus per event
/// stream, and the immutable sensor memory model.
pub struct SimState {
    exited: bool,
    drawn_pixels: EventBus<PixelEvent>,
    read_addrs: EventBus<AddressReadEvent>,
    request_addrs: EventBus<AddressRequestEvent>,
    pixel_data: SensorMemoryModel,
}

/// The consumer-facing state: one rolling history window per event stream.
pub struct RenderState {
    /// Window over the pixel-draw stream.
    pub drawn_pixels: EventQueue<PixelEvent>,
    /// Window over the address-read stream.
    pub read_addrs: EventQueue<AddressReadEvent>,
    /// Window over the address-request stream.
    pub request_addrs: EventQueue<AddressRequestEvent>,
}

impl SimState {
    /// Whether the consumer has requested exit.
    pub closed spec fn exited(&self) -> bool {
        self.exited
    }

    /// All pixel-draw events ever published, in publish order.
    pub closed spec fn pixel_log(&self) -> Seq<PixelEvent> {
        self.drawn_pixels.log()
    }

    /// All address-read events ever published, in publish order.
    pub closed spec fn read_log(&self) -> Seq<AddressReadEvent> {
        self.read_addrs.log()
    }

    /// All address-request events ever published, in publish order.
    pub closed spec fn request_log(&self) -> Seq<AddressRequestEvent> {
        self.request_addrs.log()
    }

    /// The precomputed raw memory image.
    pub closed spec fn memory(&self) -> Seq<u16> {
        self.pixel_data@
    }

    /// Subscribers registered on the pixel-draw stream.
    pub closed spec fn pixel_subscribers(&self) -> int {
        self.drawn_pixels.subscriber_count()
    }

    /// Subscribers registered on the address-read stream.
    pub closed spec fn read_subscribers(&self) -> int {
        self.read_addrs.subscriber_count()
    }

    /// Subscribers registered on the address-request stream.
    pub closed spec fn request_subscribers(&self) -> int {
        self.request_addrs.subscriber_count()
    }

    /// Sequence number of the oldest pixel-draw event still buffered.
    pub closed spec fn pixel_first_available(&self) -> int {
        self.drawn_pixels.first_available()
    }

    /// Sequence number of the oldest address-read event still buffered.
    pub closed spec fn read_first_available(&self) -> int {
        self.read_addrs.first_available()
    }

    /// Sequence number of the oldest address-request event still buffered.
    pub closed spec fn request_first_available(&self) -> int {
        self.request_addrs.first_available()
    }

    /// Validity: the buses are consistent and never torn down for the life
    /// of the simulation, and the memory model covers the whole address
    /// space of the reference geometry.
    pub closed spec fn wf(&self) -> bool {
        &&& self.drawn_pixels.wf() && !self.drawn_pixels.is_closed()
        &&& self.read_addrs.wf() && !self.read_addrs.is_closed()
        &&& self.request_addrs.wf() && !self.request_addrs.is_closed()
        &&& self.drawn_pixels.capacity() == BUS_CAPACITY
        &&& self.read_addrs.capacity() == BUS_CAPACITY
        &&& self.request_addrs.capacity() == BUS_CAPACITY
        &&& self.pixel_data@.len() == ADDRESS_COUNT
    }

    /// Where each stream's oldest buffered event stands: nothing has been
    /// overwritten until a log outgrows the bus capacity, and from then on
    /// exactly the oldest events beyond the capacity are gone.
    pub proof fn lemma_first_available(&self)
        requires
            self.wf(),
        ensures
            self.pixel_first_available() == if self.pixel_log().len() <= BUS_CAPACITY as int {
                0
            } else {
                self.pixel_log().len() - BUS_CAPACITY as int
            },
            self.read_first_available() == if self.read_log().len() <= BUS_CAPACITY as int {
                0
            } else {
                self.read_log().len() - BUS_CAPACITY as int
            },
            self.request_first_available() == if self.request_log().len() <= BUS_CAPACITY as int {
                0
            } else {
                self.request_log().len() - BUS_CAPACITY as int
            },
    {
        self.drawn_pixels.lemma_first_available();
        self.read_addrs.lemma_first_available();
        self.request_addrs.lemma_first_available();
    }

    /// Builds the simulation state from already decoded source pixels of
    /// the reference dimensions, in row-major order.
    pub fn from_pixels(pixels: &Vec<(u8, u8, u8)>) -> (r: SimState)
        requires
            pixels@.len() == SOURCE_WIDTH * SENSOR_HEIGHT,
        ensures
            r.wf(),
            !r.exited(),
            r.pixel_log() == Seq::<PixelEvent>::empty(),
            r.read_log() == Seq::<AddressReadEvent>::empty(),
            r.request_log() == Seq::<AddressRequestEvent>::empty(),
            r.pixel_subscribers() == 0,
            r.read_subscribers() == 0,
            r.request_subscribers() == 0,
            r.memory().len() == ADDRESS_COUNT,
            forall|a: int| 0 <= a < ADDRESS_COUNT ==> r.memory()[a] == spec_sample(pixels@, a),
    {
        SimState {
            exited: false,
            drawn_pixels: EventBus::new(BUS_CAPACITY),
            read_addrs: EventBus::new(BUS_CAPACITY),
            request_addrs: EventBus::new(BUS_CAPACITY),
            pixel_data: SensorMemoryModel::new(pixels),
        }
    }

    /// Whether the consumer has requested exit.  Non-blocking, never fails.
    pub fn is_exited(&self) -> (r: bool)
        ensures
            r == self.exited(),
    {
        self.exited
    }

    /// Latches the exit flag.  The transition is monotonic: no operation of
    /// this type ever resets the flag, so once set, every later
    /// `is_exited` observes `true`.
    pub fn request_exit(&mut self)
        ensures
            final(self).exited(),
            final(self).wf() == old(self).wf(),
            final(self).pixel_log() == old(self).pixel_log(),
            final(self).read_log() == old(self).read_log(),
            final(self).request_log() == old(self).request_log(),
            final(self).memory() == old(self).memory(),
            final(self).pixel_subscribers() == old(self).pixel_subscribers(),
            final(self).read_subscribers() == old(self).read_subscribers(),
            final(self).request_subscribers() == old(self).request_subscribers(),
    {
        self.exited = true;
    }

    /// Publishes a pixel-draw event.  Fails only while no subscriber
    /// exists; the producer treats that as non-fatal telemetry loss.
    pub fn push_pixel_read(&mut self, x: i16, y: i16, r: u8, g: u8, b: u8) -> (res: Result<
        (),
        PublishError,
    >)
        requires
            old(self).wf(),
            old(self).pixel_log().len() < u64::MAX,
        ensures
            final(self).wf(),
            final(self).exited() == old(self).exited(),
            final(self).memory() == old(self).memory(),
            final(self).read_log() == old(self).read_log(),
            final(self).request_log() == old(self).request_log(),
            final(self).pixel_subscribers() == old(self).pixel_subscribers(),
            final(self).read_subscribers() == old(self).read_subscribers(),
            final(self).request_subscribers() == old(self).request_subscribers(),
            res is Ok <==> old(self).pixel_subscribers() > 0,
            res is Ok ==> final(self).pixel_log() == old(self).pixel_log().push(
                PixelEvent { x, y, color: (r, g, b) },
            ),
            res is Err ==> final(self).pixel_log() == old(self).pixel_log() && res == Err::<
                (),
                PublishError,
            >(PublishError::NoSubscribers),
    {
        self.drawn_pixels.publish(PixelEvent { x, y, color: (r, g, b) })
    }

    /// Publishes an address-read event on a logical access channel.  The
    /// channel id is carried as given; a violating id is detected when the
    /// renderer resolves its color.
    pub fn push_addr_read(&mut self, channel_id: u8, addr: u32) -> (res: Result<(), PublishError>)
        requires
            old(self).wf(),
            old(self).read_log().len() < u64::MAX,
        ensures
            final(self).wf(),
            final(self).exited() == old(self).exited(),
            final(self).memory() == old(self).memory(),
            final(self).pixel_log() == old(self).pixel_log(),
            final(self).request_log() == old(self).request_log(),
            final(self).pixel_subscribers() == old(self).pixel_subscribers(),
            final(self).read_subscribers() == old(self).read_subscribers(),
            final(self).request_subscribers() == old(self).request_subscribers(),
            res is Ok <==> old(self).read_subscribers() > 0,
            res is Ok ==> final(self).read_log() == old(self).read_log().push(
                AddressReadEvent { channel_id, addr },
            ),
            res is Err ==> final(self).read_log() == old(self).read_log() && res == Err::<
                (),
                PublishError,
            >(PublishError::NoSubscribers),
    {
        self.read_addrs.publish(AddressReadEvent { channel_id, addr })
    }

    /// Publishes an address-request event.
    pub fn push_request_addr(&mut self, addr: u32) -> (res: Result<(), PublishError>)
        requires
            old(self).wf(),
            old(self).request_log().len() < u64::MAX,
        ensures
            final(self).wf(),
            final(self).exited() == old(self).exited(),
            final(self).memory() == old(self).memory(),
            final(self).pixel_log() == old(self).pixel_log(),
            final(self).read_log() == old(self).read_log(),
            final(self).pixel_subscribers() == old(self).pixel_subscribers(),
            final(self).read_subscribers() == old(self).read_subscribers(),
            final(self).request_subscribers() == old(self).request_subscribers(),
            res is Ok <==> old(self).request_subscribers() > 0,
            res is Ok ==> final(self).request_log() == old(self).request_log().push(
                AddressRequestEvent { addr },
            ),
            res is Err ==> final(self).request_log() == old(self).request_log() && res == Err::<
                (),
                PublishError,
            >(PublishError::NoSubscribers),
    {
        self.request_addrs.publish(AddressRequestEvent { addr })
    }

    /// Reads the raw sensor sample at `addr`; an address outside the model
    /// answers the `NO_DATA` sentinel, never a failure.
    pub fn read_value(&self, addr: u32) -> (r: u16)
        ensures
            addr < self.memory().len() ==> r == self.memory()[addr as int],
            addr >= self.memory().len() ==> r == NO_DATA,
    {
        self.pixel_data.read_memory(addr)
    }

    /// Registers one fresh window per stream.  Each window starts empty and
    /// observes exactly the events published after this call.
    pub fn create_render_state(&mut self) -> (r: RenderState)
        requires
            old(self).wf(),
            old(self).pixel_subscribers() < usize::MAX,
            old(self).read_subscribers() < usize::MAX,
            old(self).request_subscribers() < usize::MAX,
        ensures
            final(self).wf(),
            final(self).exited() == old(self).exited(),
            final(self).memory() == old(self).memory(),
            final(self).pixel_log() == old(self).pixel_log(),
            final(self).read_log() == old(self).read_log(),
            final(self).request_log() == old(self).request_log(),
            final(self).pixel_subscribers() == old(self).pixel_subscribers() + 1,
            final(self).read_subscribers() == old(self).read_subscribers() + 1,
            final(self).request_subscribers() == old(self).request_subscribers() + 1,
            r.wf(final(self)),
            r.drawn_pixels.history() == Seq::<PixelEvent>::empty(),
            r.read_addrs.history() == Seq::<AddressReadEvent>::empty(),
            r.request_addrs.history() == Seq::<AddressRequestEvent>::empty(),
            r.drawn_pixels.cursor() == old(self).pixel_log().len(),
            r.read_addrs.cursor() == old(self).read_log().len(),
            r.request_addrs.cursor() == old(self).request_log().len(),
            r.drawn_pixels.limit() == PIXEL_HISTORY_LIMIT,
            r.read_addrs.limit() == READ_HISTORY_LIMIT,
            r.request_addrs.limit() == REQUEST_HISTORY_LIMIT,
    {
        RenderState {
            drawn_pixels: EventQueue::new(&mut self.drawn_pixels, PIXEL_HISTORY_LIMIT),
            read_addrs: EventQueue::new(&mut self.read_addrs, READ_HISTORY_LIMIT),
            request_addrs: EventQueue::new(&mut self.request_addrs, REQUEST_HISTORY_LIMIT),
        }
    }

    /// Decodes an encoded source image and builds the simulation state from
    /// it.  Yields `None`, instead of panicking, when the bytes do not
    /// decode or the image is not of the reference dimensions.
    pub fn new_state(image_bytes: &[u8]) -> (r: Option<SimState>)
        ensures
            r is Some <==> (decoded_rgb(image_bytes@) matches Some(d) && d.0 == SOURCE_WIDTH as int
                && d.1 == SENSOR_HEIGHT as int),
            r matches Some(s) ==> decoded_rgb(image_bytes@) matches Some(d) && s.wf()
                && !s.exited() && s.pixel_log() == Seq::<PixelEvent>::empty() && s.read_log()
                == Seq::<AddressReadEvent>::empty() && s.request_log() == Seq::<
                AddressRequestEvent,
            >::empty() && s.pixel_subscribers() == 0 && s.read_subscribers() == 0
                && s.request_subscribers() == 0 && s.memory().len() == ADDRESS_COUNT && (forall|
                a: int,
            | 0 <= a < ADDRESS_COUNT ==> s.memory()[a] == spec_sample(d.2, a)),
    {
        match decode_rgb(image_bytes) {
            None => None,
            Some((w, h, pixels)) => {
                if w == SOURCE_WIDTH && h == SENSOR_HEIGHT {
                    Some(Self::from_pixels(&pixels))
                } else {
                    None
                }
            },
        }
    }
}

impl RenderState {
    /// Validity of the three windows with respect to the simulation state
    /// they subscribe to.  It is preserved when the producer publishes:
    /// see `lemma_wf_grows`.
    pub closed spec fn wf(&self, sim: &SimState) -> bool {
        &&& self.drawn_pixels.wf(&sim.drawn_pixels)
        &&& self.read_addrs.wf(&sim.read_addrs)
        &&& self.request_addrs.wf(&sim.request_addrs)
    }

    /// Publishing only appends to the logs, so a render state stays valid
    /// across any sequence of producer operations.
    pub proof fn lemma_wf_grows(&self, a: &SimState, b: &SimState)
        requires
            self.wf(a),
            a.pixel_log().len() <= b.pixel_log().len(),
            a.read_log().len() <= b.read_log().len(),
            a.request_log().len() <= b.request_log().len(),
        ensures
            self.wf(b),
    {
    }

    /// Drains the pixel-draw stream: every pending event, in publish order,
    /// is appended to the rolling history and returned.  Never fails while
    /// the simulation is alive, and never blocks on a future publish.
    pub fn drain_pixels(&mut self, sim: &SimState) -> (r: Result<Vec<PixelEvent>, DrainError>)
        requires
            sim.wf(),
            old(self).wf(sim),
        ensures
            final(self).wf(sim),
            final(self).read_addrs == old(self).read_addrs,
            final(self).request_addrs == old(self).request_addrs,
            final(self).drawn_pixels.limit() == old(self).drawn_pixels.limit(),
            final(self).drawn_pixels.cursor() == sim.pixel_log().len(),
            final(self).drawn_pixels.history() == take_last(
                old(self).drawn_pixels.history() + sim.pixel_log().subrange(
                    resync_cursor(old(self).drawn_pixels.cursor(), sim.pixel_first_available()),
                    sim.pixel_log().len() as int,
                ),
                old(self).drawn_pixels.limit(),
            ),
            r matches Ok(v) ==> v@ == sim.pixel_log().subrange(
                resync_cursor(old(self).drawn_pixels.cursor(), sim.pixel_first_available()),
                sim.pixel_log().len() as int,
            ),
            r is Ok,
    {
        self.drawn_pixels.drain(&sim.drawn_pixels)
    }

    /// Drains the address-read stream, as `drain_pixels` does its stream.
    pub fn drain_reads(&mut self, sim: &SimState) -> (r: Result<Vec<AddressReadEvent>, DrainError>)
        requires
            sim.wf(),
            old(self).wf(sim),
        ensures
            final(self).wf(sim),
            final(self).drawn_pixels == old(self).drawn_pixels,
            final(self).request_addrs == old(self).request_addrs,
            final(self).read_addrs.limit() == old(self).read_addrs.limit(),
            final(self).read_addrs.cursor() == sim.read_log().len(),
            final(self).read_addrs.history() == take_last(
                old(self).read_addrs.history() + sim.read_log().subrange(
                    resync_cursor(old(self).read_addrs.cursor(), sim.read_first_available()),
                    sim.read_log().len() as int,
                ),
                old(self).read_addrs.limit(),
            ),
            r matches Ok(v) ==> v@ == sim.read_log().subrange(
                resync_cursor(old(self).read_addrs.cursor(), sim.read_first_available()),
                sim.read_log().len() as int,
            ),
            r is Ok,
    {
        self.read_addrs.drain(&sim.read_addrs)
    }

    /// Drains the address-request stream, as `drain_pixels` does its stream.
    pub fn drain_requests(&mut self, sim: &SimState) -> (r: Result<
        Vec<AddressRequestEvent>,
        DrainError,
    >)
        requires
            sim.wf(),
            old(self).wf(sim),
        ensures
            final(self).wf(sim),
            final(self).drawn_pixels == old(self).drawn_pixels,
            final(self).read_addrs == old(self).read_addrs,
            final(self).request_addrs.limit() == old(self).request_addrs.limit(),
            final(self).request_addrs.cursor() == sim.request_log().len(),
            final(self).request_addrs.history() == take_last(
                old(self).request_addrs.history() + sim.request_log().subrange(
                    resync_cursor(old(self).request_addrs.cursor(), sim.request_first_available()),
                    sim.request_log().len() as int,
                ),
                old(self).request_addrs.limit(),
            ),
            r matches Ok(v) ==> v@ == sim.request_log().subrange(
                resync_cursor(old(self).request_addrs.cursor(), sim.request_first_available()),
                sim.request_log().len() as int,
            ),
            r is Ok,
    {
        self.request_addrs.drain(&sim.request_addrs)
    }
}

} // verus!
