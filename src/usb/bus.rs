//! The device core seen from the USB device stack: endpoint allocation,
//! control transfers through endpoint 0's FIFO, stall and address control,
//! and interrupt polling.
use vstd::prelude::*;
use crate::usb::registers::{FIFO_LEN_BYTES, FIFO_LEN_ITEMS, EP0CTL_STALL, DIEP0CTL_MPS_MASK, DOEP0TSIZ_XFERSIZE_MASK, DCFG_DAD_MASK, DCFG_DAD_SHIFT, GINTSTS_USBRST, GINTSTS_ENUMDONE};

verus! {

/// Direction of an endpoint, seen from the host.
#[derive(Clone, Copy, PartialEq, Eq, Debug, Structural)]
pub enum UsbDirection {
    Out,
    In,
}

/// Errors the driver reports to the device stack.
#[derive(Clone, Copy, PartialEq, Eq, Debug, Structural)]
pub enum UsbError {
    /// The address names no endpoint this operation can serve.
    InvalidEndpoint,
    /// A direction's interface endpoints are all taken.
    EndpointOverflow,
    /// Nothing could be queued.
    WouldBlock,
    /// The control endpoint of this direction was already handed out.
    AlreadyAllocated,
}

/// What a poll of the device core found.
#[derive(Clone, Copy, PartialEq, Eq, Debug, Structural)]
pub enum PollResult {
    /// Nothing that the device stack must act on.
    NoEvent,
    Reset,
}

/// An endpoint: its number and direction.
#[derive(Clone, Copy, PartialEq, Eq, Debug, Structural)]
pub struct EndpointAddress {
    index: u8,
    direction: UsbDirection,
}

impl EndpointAddress {
    pub closed spec fn spec_index(self) -> nat {
        self.index as nat
    }

    pub closed spec fn spec_direction(self) -> UsbDirection {
        self.direction
    }

    pub fn from_parts(index: u8, direction: UsbDirection) -> (r: Self)
        ensures
            r.spec_index() == index,
            r.spec_direction() == direction,
    {
        EndpointAddress { index, direction }
    }

    pub fn index(&self) -> (r: u8)
        ensures
            r == self.spec_index(),
    {
        self.index
    }

    pub fn direction(&self) -> (r: UsbDirection)
        ensures
            r == self.spec_direction(),
    {
        self.direction
    }

    pub fn is_in(&self) -> (r: bool)
        ensures
            r == (self.spec_direction() == UsbDirection::In),
    {
        match self.direction {
            UsbDirection::In => true,
            UsbDirection::Out => false,
        }
    }

    pub fn is_out(&self) -> (r: bool)
        ensures
            r == (self.spec_direction() == UsbDirection::Out),
    {
        match self.direction {
            UsbDirection::In => false,
            UsbDirection::Out => true,
        }
    }
}

/// Endpoint 0 of one direction, with its transfer-pending flag.
#[derive(Clone, Copy, PartialEq, Eq, Debug, Structural)]
pub struct ControlEndpoint {
    pending: bool,
}

impl ControlEndpoint {
    pub closed spec fn spec_pending(self) -> bool {
        self.pending
    }

    pub fn new() -> (r: Self)
        ensures
            !r.spec_pending(),
    {
        ControlEndpoint { pending: false }
    }

    pub fn is_pending(&self) -> (r: bool)
        ensures
            r == self.spec_pending(),
    {
        self.pending
    }

    pub fn pend(&mut self)
        ensures
            final(self).spec_pending(),
    {
        self.pending = true;
    }

    pub fn unpend(&mut self)
        ensures
            !final(self).spec_pending(),
    {
        self.pending = false;
    }
}

/// Interface endpoints of one direction, handed out in order 1, 2, 3 and
/// never given back.
#[derive(Clone, Copy, PartialEq, Eq, Debug, Structural)]
pub struct Endpoints {
    endpoints_allocated: usize,
    dir: UsbDirection,
}

/// Interface endpoints the chip has per direction.
pub const CHIP_CAPACITY: usize = 3;

impl Endpoints {
    pub closed spec fn allocated(self) -> nat {
        self.endpoints_allocated as nat
    }

    pub closed spec fn dir(self) -> UsbDirection {
        self.dir
    }

    pub closed spec fn wf(self) -> bool {
        self.endpoints_allocated <= CHIP_CAPACITY
    }

    pub fn new(dir: UsbDirection) -> (r: Self)
        ensures
            r.wf(),
            r.allocated() == 0,
            r.dir() == dir,
    {
        Endpoints { dir, endpoints_allocated: 0 }
    }

    pub fn len(&self) -> (r: usize)
        ensures
            r == self.allocated(),
    {
        self.endpoints_allocated
    }

    /// Hands out the next endpoint number, or fails once three are taken.
    pub fn allocate(&mut self) -> (r: Result<EndpointAddress, UsbError>)
        requires
            old(self).wf(),
        ensures
            final(self).wf(),
            final(self).dir() == old(self).dir(),
            old(self).allocated() < CHIP_CAPACITY ==> final(self).allocated() == old(self).allocated()
                + 1 && r is Ok && (r->Ok_0).spec_index() == final(self).allocated() && (
            r->Ok_0).spec_direction() == old(self).dir(),
            old(self).allocated() >= CHIP_CAPACITY ==> r == Err::<EndpointAddress, UsbError>(
                UsbError::EndpointOverflow) && *final(self) == *old(self),
    {
        let position = self.endpoints_allocated;
        if position >= CHIP_CAPACITY {
            return Err(UsbError::EndpointOverflow);
        }
        let position = position + 1;
        self.endpoints_allocated = position;
        Ok(EndpointAddress::from_parts(position as u8, self.dir))
    }
}

} // verus!

verus! {

/// The device core must commit the address to hardware before the status
/// stage of SET_ADDRESS completes: the device stack is told so.
pub const QUIRK_SET_ADDRESS_BEFORE_STATUS: bool = true;

/// A little-endian 32-bit word built from four byte values.
pub open spec fn le_word(b0: u32, b1: u32, b2: u32, b3: u32) -> u32 {
    b0 | (b1 << 8u32) | (b2 << 16u32) | (b3 << 24u32)
}

/// Byte `k` of `w`, counting from the least significant.
pub open spec fn word_byte(w: u32, k: int) -> u8 {
    if k == 0 {
        (w & 0xffu32) as u8
    } else if k == 1 {
        ((w >> 8u32) & 0xffu32) as u8
    } else if k == 2 {
        ((w >> 16u32) & 0xffu32) as u8
    } else {
        ((w >> 24u32) & 0xffu32) as u8
    }
}

/// Byte `j` of the first `n` bytes of `b`, and zero past them.
pub open spec fn byte_or_zero(b: Seq<u8>, n: int, j: int) -> u8 {
    if 0 <= j < n {
        b[j]
    } else {
        0
    }
}

/// FIFO word `i` when the first `n` bytes of `b` are packed four to a word,
/// least significant byte first, the last word padded with zeros.
pub open spec fn packed_word(b: Seq<u8>, n: int, i: int) -> u32 {
    le_word(
        byte_or_zero(b, n, 4 * i) as u32,
        byte_or_zero(b, n, 4 * i + 1) as u32,
        byte_or_zero(b, n, 4 * i + 2) as u32,
        byte_or_zero(b, n, 4 * i + 3) as u32,
    )
}

/// Words that `n` bytes occupy in the FIFO.
pub open spec fn words_for(n: int) -> int {
    (n + 3) / 4
}

/// Bytes a transfer of `len` bytes moves: the FIFO holds at most 1536.
pub open spec fn fifo_bytes(len: int) -> int {
    if len < FIFO_LEN_BYTES {
        len
    } else {
        FIFO_LEN_BYTES as int
    }
}

proof fn lemma_le_word_bytes(b0: u32, b1: u32, b2: u32, b3: u32)
    requires
        b0 < 256,
        b1 < 256,
        b2 < 256,
        b3 < 256,
    ensures
        le_word(b0, b1, b2, b3) & 0xffu32 == b0,
        (le_word(b0, b1, b2, b3) >> 8u32) & 0xffu32 == b1,
        (le_word(b0, b1, b2, b3) >> 16u32) & 0xffu32 == b2,
        (le_word(b0, b1, b2, b3) >> 24u32) & 0xffu32 == b3,
{
    assert(((b0 | (b1 << 8u32) | (b2 << 16u32) | (b3 << 24u32)) & 0xffu32 == b0) && (((b0 | (b1
        << 8u32) | (b2 << 16u32) | (b3 << 24u32)) >> 8u32) & 0xffu32 == b1) && (((b0 | (b1 << 8u32)
        | (b2 << 16u32) | (b3 << 24u32)) >> 16u32) & 0xffu32 == b2) && (((b0 | (b1 << 8u32) | (b2
        << 16u32) | (b3 << 24u32)) >> 24u32) & 0xffu32 == b3)) by (bit_vector)
        requires
            b0 < 256,
            b1 < 256,
            b2 < 256,
            b3 < 256,
    ;
}

/// Each byte of a packed word is the byte of the buffer at its place, or
/// zero past the end of the transfer.
pub proof fn lemma_packed_word_bytes(b: Seq<u8>, n: int, i: int)
    ensures
        forall|k: int| 0 <= k < 4 ==> #[trigger] word_byte(packed_word(b, n, i), k)
            == byte_or_zero(b, n, 4 * i + k),
{
    lemma_le_word_bytes(
        byte_or_zero(b, n, 4 * i) as u32,
        byte_or_zero(b, n, 4 * i + 1) as u32,
        byte_or_zero(b, n, 4 * i + 2) as u32,
        byte_or_zero(b, n, 4 * i + 3) as u32,
    );
}

/// A transfer whose length is not a multiple of four ends in a word whose
/// low-order bytes are the one to three trailing bytes and whose remaining
/// high-order bytes are zero.
pub proof fn lemma_tail_word(b: Seq<u8>, n: int)
    requires
        0 <= n <= b.len(),
        n % 4 != 0,
    ensures
        words_for(n) == n / 4 + 1,
        forall|k: int| 0 <= k < n % 4 ==> #[trigger] word_byte(packed_word(b, n, n / 4), k) == b[4
            * (n / 4) + k],
        forall|k: int| n % 4 <= k < 4 ==> #[trigger] word_byte(packed_word(b, n, n / 4), k) == 0,
{
    lemma_packed_word_bytes(b, n, n / 4);
}

fn le_word_exec(b0: u8, b1: u8, b2: u8, b3: u8) -> (r: u32)
    ensures
        r == le_word(b0 as u32, b1 as u32, b2 as u32, b3 as u32),
{
    (b0 as u32) | ((b1 as u32) << 8u32) | ((b2 as u32) << 16u32) | ((b3 as u32) << 24u32)
}

fn byte_of_word(w: u32, k: usize) -> (r: u8)
    requires
        k < 4,
    ensures
        r == word_byte(w, k as int),
{
    if k == 0 {
        (w & 0xff) as u8
    } else if k == 1 {
        ((w >> 8u32) & 0xff) as u8
    } else if k == 2 {
        ((w >> 16u32) & 0xff) as u8
    } else {
        ((w >> 24u32) & 0xff) as u8
    }
}

} // verus!

verus! {

/// Whether one more interface endpoint can be handed out after `allocated`.
pub open spec fn interface_alloc_accepts(allocated: nat) -> bool {
    allocated < CHIP_CAPACITY
}

/// Interface endpoints taken after one more request, starting from `allocated`.
pub open spec fn after_interface_alloc(allocated: nat) -> nat {
    if interface_alloc_accepts(allocated) {
        allocated + 1
    } else {
        allocated
    }
}

/// The driver's own state: which endpoints are handed out, and whether a
/// control IN transfer is pending. Everything else lives in the device
/// core's registers, whose values the caller passes in and writes back.
pub struct USB {
    in_endpoints: Endpoints,
    out_endpoints: Endpoints,
    in_ctrl: Option<ControlEndpoint>,
    out_ctrl: Option<ControlEndpoint>,
}

impl USB {
    /// The interface endpoint stack of `dir`.
    pub closed spec fn endpoints_of(&self, dir: UsbDirection) -> Endpoints {
        match dir {
            UsbDirection::In => self.in_endpoints,
            UsbDirection::Out => self.out_endpoints,
        }
    }

    /// The control endpoint of `dir`, once allocated.
    pub closed spec fn control_of(&self, dir: UsbDirection) -> Option<ControlEndpoint> {
        match dir {
            UsbDirection::In => self.in_ctrl,
            UsbDirection::Out => self.out_ctrl,
        }
    }

    pub closed spec fn wf(&self) -> bool {
        &&& self.in_endpoints.wf()
        &&& self.out_endpoints.wf()
        &&& self.in_endpoints.dir() == UsbDirection::In
        &&& self.out_endpoints.dir() == UsbDirection::Out
    }

    pub fn new() -> (r: Self)
        ensures
            r.wf(),
            r.endpoints_of(UsbDirection::In).allocated() == 0,
            r.endpoints_of(UsbDirection::Out).allocated() == 0,
            r.control_of(UsbDirection::In) is None,
            r.control_of(UsbDirection::Out) is None,
    {
        USB {
            in_endpoints: Endpoints::new(UsbDirection::In),
            out_endpoints: Endpoints::new(UsbDirection::Out),
            in_ctrl: None,
            out_ctrl: None,
        }
    }

    fn allocate_control_endpoint(&mut self, dir: UsbDirection) -> (r: Result<
        EndpointAddress,
        UsbError,
    >)
        requires
            old(self).wf(),
        ensures
            final(self).wf(),
            old(self).control_of(dir) is Some ==> r == Err::<EndpointAddress, UsbError>(
                UsbError::AlreadyAllocated) && *final(self) == *old(self),
            old(self).control_of(dir) is None ==> r is Ok && (r->Ok_0).spec_index() == 0 && (
            r->Ok_0).spec_direction() == dir && final(self).control_of(dir) is Some && !(
            final(self).control_of(dir)->0).spec_pending(),
            final(self).endpoints_of(UsbDirection::In) == old(self).endpoints_of(UsbDirection::In),
            final(self).endpoints_of(UsbDirection::Out) == old(self).endpoints_of(UsbDirection::Out),
            final(self).control_of(other_direction(dir)) == old(self).control_of(other_direction(dir)),
    {
        match dir {
            UsbDirection::In => if self.in_ctrl.is_some() {
                Err(UsbError::AlreadyAllocated)
            } else {
                let addr = EndpointAddress::from_parts(0, dir);
                self.in_ctrl = Some(ControlEndpoint::new());
                Ok(addr)
            },
            UsbDirection::Out => if self.out_ctrl.is_some() {
                Err(UsbError::AlreadyAllocated)
            } else {
                let addr = EndpointAddress::from_parts(0, dir);
                self.out_ctrl = Some(ControlEndpoint::new());
                Ok(addr)
            },
        }
    }

    fn allocate_interface_endpoint(&mut self, dir: UsbDirection) -> (r: Result<
        EndpointAddress,
        UsbError,
    >)
        requires
            old(self).wf(),
        ensures
            final(self).wf(),
            interface_alloc_accepts(old(self).endpoints_of(dir).allocated()) ==> r is Ok && (
            r->Ok_0).spec_index() == final(self).endpoints_of(dir).allocated() && (
            r->Ok_0).spec_direction() == dir,
            !interface_alloc_accepts(old(self).endpoints_of(dir).allocated()) ==> r == Err::<
                EndpointAddress,
                UsbError,
            >(UsbError::EndpointOverflow) && *final(self) == *old(self),
            final(self).endpoints_of(dir).allocated() == after_interface_alloc(
                old(self).endpoints_of(dir).allocated(),
            ),
            final(self).endpoints_of(other_direction(dir)) == old(self).endpoints_of(other_direction(dir)),
            final(self).control_of(UsbDirection::In) == old(self).control_of(UsbDirection::In),
            final(self).control_of(UsbDirection::Out) == old(self).control_of(UsbDirection::Out),
    {
        match dir {
            UsbDirection::In => self.in_endpoints.allocate(),
            UsbDirection::Out => self.out_endpoints.allocate(),
        }
    }

    /// Allocates an endpoint for the device stack. A request for number 0
    /// takes the direction's control endpoint, once; any other request takes
    /// the next interface endpoint of that direction, up to three.
    pub fn alloc_ep(&mut self, dir: UsbDirection, addr: Option<EndpointAddress>) -> (r: Result<
        EndpointAddress,
        UsbError,
    >)
        requires
            old(self).wf(),
        ensures
            final(self).wf(),
            ({
                let control = addr is Some && (addr->0).spec_index() == 0;
                &&& control ==> {
                    &&& old(self).control_of(dir) is Some ==> r == Err::<EndpointAddress, UsbError>(
                        UsbError::AlreadyAllocated) && *final(self) == *old(self)
                    &&& old(self).control_of(dir) is None ==> r is Ok && (r->Ok_0).spec_index() == 0
                        && (r->Ok_0).spec_direction() == dir && final(self).control_of(dir)
                        is Some && !(final(self).control_of(dir)->0).spec_pending()
                    &&& final(self).endpoints_of(dir) == old(self).endpoints_of(dir)
                }
                &&& !control ==> {
                    &&& interface_alloc_accepts(old(self).endpoints_of(dir).allocated()) ==> r is Ok
                        && (r->Ok_0).spec_index() == final(self).endpoints_of(dir).allocated()
                        && (r->Ok_0).spec_direction() == dir
                    &&& !interface_alloc_accepts(old(self).endpoints_of(dir).allocated()) ==> r
                        == Err::<EndpointAddress, UsbError>(UsbError::EndpointOverflow)
                        && *final(self) == *old(self)
                    &&& final(self).endpoints_of(dir).allocated() == after_interface_alloc(
                        old(self).endpoints_of(dir).allocated(),
                    )
                    &&& final(self).control_of(dir) == old(self).control_of(dir)
                }
            }),
            final(self).endpoints_of(other_direction(dir)) == old(self).endpoints_of(other_direction(dir)),
            final(self).control_of(other_direction(dir)) == old(self).control_of(other_direction(dir)),
    {
        let control = match addr {
            Some(a) => a.index() == 0,
            None => false,
        };
        if control {
            self.allocate_control_endpoint(dir)
        } else {
            self.allocate_interface_endpoint(dir)
        }
    }

    /// A bus reset leaves the allocations as they are.
    pub fn reset(&self) {
    }
}

pub open spec fn other_direction(dir: UsbDirection) -> UsbDirection {
    match dir {
        UsbDirection::In => UsbDirection::Out,
        UsbDirection::Out => UsbDirection::In,
    }
}

/// A direction's control endpoint is handed out once: a second request fails
/// with `AlreadyAllocated`. Interface endpoints are taken by the first three
/// requests of a direction, and the fourth fails with `EndpointOverflow`.
pub proof fn lemma_allocation_limits()
    ensures
        interface_alloc_accepts(0),
        interface_alloc_accepts(after_interface_alloc(0)),
        interface_alloc_accepts(after_interface_alloc(after_interface_alloc(0))),
        !interface_alloc_accepts(after_interface_alloc(after_interface_alloc(after_interface_alloc(0)))),
        after_interface_alloc(after_interface_alloc(after_interface_alloc(0))) == CHIP_CAPACITY,
{
}

} // verus!

verus! {

impl USB {
    /// Whether `write` serves `addr`: only IN endpoint 0, once allocated.
    pub open spec fn write_serves(&self, addr: EndpointAddress) -> bool {
        &&& addr.spec_direction() == UsbDirection::In
        &&& addr.spec_index() == 0
        &&& self.control_of(UsbDirection::In) is Some
    }

    /// Whether `read` serves `addr`: only OUT endpoint 0.
    pub open spec fn read_serves(&self, addr: EndpointAddress) -> bool {
        &&& addr.spec_direction() == UsbDirection::Out
        &&& addr.spec_index() == 0
    }

    fn control_tx(&mut self, buf: &[u8], fifo: &mut [u32]) -> (r: Result<usize, UsbError>)
        requires
            old(self).wf(),
            old(self).in_ctrl is Some,
            old(fifo)@.len() == FIFO_LEN_ITEMS,
        ensures
            final(self).wf(),
            final(fifo)@.len() == FIFO_LEN_ITEMS,
            buf@.len() == 0 ==> r == Err::<usize, UsbError>(UsbError::WouldBlock) && *final(self)
                == *old(self) && final(fifo)@ == old(fifo)@,
            buf@.len() > 0 ==> {
                let n = fifo_bytes(buf@.len() as int);
                &&& r == Ok::<usize, UsbError>(n as usize)
                &&& final(self).in_ctrl == Some(ControlEndpoint { pending: true })
                &&& final(self).out_ctrl == old(self).out_ctrl
                &&& final(self).in_endpoints == old(self).in_endpoints
                &&& final(self).out_endpoints == old(self).out_endpoints
                &&& forall|i: int| 0 <= i < words_for(n) ==> #[trigger] final(fifo)@[i] == packed_word(buf@, n, i)
                &&& forall|i: int| words_for(n) <= i < FIFO_LEN_ITEMS ==> #[trigger] final(fifo)@[i] == old(fifo)@[i]
            },
    {
        let len_bytes = if buf.len() < FIFO_LEN_BYTES {
            buf.len()
        } else {
            FIFO_LEN_BYTES
        };
        let len_words = len_bytes / 4;
        let extra_bytes = len_bytes % 4;
        if len_bytes < 1 {
            return Err(UsbError::WouldBlock);
        }
        let mut endpoint = ControlEndpoint::new();
        endpoint.pend();
        self.in_ctrl = Some(endpoint);
        let ghost n = len_bytes as int;
        let mut i: usize = 0;
        while i < len_words
            invariant
                len_bytes as int == n,
                len_words == n / 4,
                n <= buf@.len(),
                n <= FIFO_LEN_BYTES,
                i <= len_words,
                fifo@.len() == FIFO_LEN_ITEMS,
                forall|j: int| 0 <= j < i ==> #[trigger] fifo@[j] == packed_word(buf@, n, j),
                forall|j: int| i <= j < FIFO_LEN_ITEMS ==> #[trigger] fifo@[j] == old(fifo)@[j],
            decreases len_words - i,
        {
            let src_offset = i * 4;
            let w = le_word_exec(buf[src_offset], buf[src_offset + 1], buf[src_offset + 2], buf[src_offset + 3]);
            fifo[i] = w;
            i = i + 1;
        }
        if extra_bytes > 0 {
            let base = len_words * 4;
            let mut final_word: [u8; 4] = [0; 4];
            let mut k: usize = 0;
            while k < extra_bytes
                invariant
                    extra_bytes == n % 4,
                    len_words == n / 4,
                    base == 4 * (n / 4),
                    n <= buf@.len(),
                    k <= extra_bytes,
                    forall|j: int| 0 <= j < k ==> #[trigger] final_word@[j] == buf@[base + j],
                    forall|j: int| k <= j < 4 ==> #[trigger] final_word@[j] == 0,
                decreases extra_bytes - k,
            {
                final_word[k] = buf[base + k];
                k = k + 1;
            }
            proof {
                assert forall|j: int| 0 <= j < 4 implies #[trigger] final_word@[j] == byte_or_zero(buf@, n, 4 * (n / 4) + j) by {}
            }
            fifo[len_words] = le_word_exec(final_word[0], final_word[1], final_word[2], final_word[3]);
        }
        Ok(len_bytes)
    }

    /// Queues `buf` for the host on IN endpoint 0: at most 1536 bytes are
    /// packed into FIFO words, least significant byte first, the last word
    /// padded with zeros, and the transfer is marked pending. Returns the bytes
    /// queued. `fifo` is the endpoint's transmit FIFO.
    pub fn write(&mut self, addr: EndpointAddress, buf: &[u8], fifo: &mut [u32]) -> (r: Result<
        usize,
        UsbError,
    >)
        requires
            old(self).wf(),
            old(fifo)@.len() == FIFO_LEN_ITEMS,
        ensures
            final(self).wf(),
            final(fifo)@.len() == FIFO_LEN_ITEMS,
            !old(self).write_serves(addr) ==> r == Err::<usize, UsbError>(UsbError::InvalidEndpoint)
                && *final(self) == *old(self) && final(fifo)@ == old(fifo)@,
            old(self).write_serves(addr) && buf@.len() == 0 ==> r == Err::<usize, UsbError>(
                UsbError::WouldBlock) && *final(self) == *old(self) && final(fifo)@ == old(fifo)@,
            old(self).write_serves(addr) && buf@.len() > 0 ==> {
                let n = fifo_bytes(buf@.len() as int);
                &&& r == Ok::<usize, UsbError>(n as usize)
                &&& final(self).control_of(UsbDirection::In) is Some
                &&& (final(self).control_of(UsbDirection::In)->0).spec_pending()
                &&& final(self).control_of(UsbDirection::Out) == old(self).control_of(UsbDirection::Out)
                &&& final(self).endpoints_of(UsbDirection::In) == old(self).endpoints_of(UsbDirection::In)
                &&& final(self).endpoints_of(UsbDirection::Out) == old(self).endpoints_of(UsbDirection::Out)
                &&& forall|i: int| 0 <= i < words_for(n) ==> #[trigger] final(fifo)@[i] == packed_word(buf@, n, i)
                &&& forall|i: int| words_for(n) <= i < FIFO_LEN_ITEMS ==> #[trigger] final(fifo)@[i] == old(fifo)@[i]
            },
    {
        if !addr.is_in() || addr.index() as usize > self.in_endpoints.len() {
            return Err(UsbError::InvalidEndpoint);
        }
        if addr.index() != 0 || self.in_ctrl.is_none() {
            return Err(UsbError::InvalidEndpoint);
        }
        self.control_tx(buf, fifo)
    }

    fn control_rx(&self, buf: &mut [u8], fifo: &[u32]) -> (r: Result<usize, UsbError>)
        requires
            fifo@.len() == FIFO_LEN_ITEMS,
        ensures
            final(buf)@.len() == old(buf)@.len(),
            r == Ok::<usize, UsbError>(fifo_bytes(old(buf)@.len() as int) as usize),
            forall|j: int| 0 <= j < fifo_bytes(old(buf)@.len() as int) ==> #[trigger] final(buf)@[j] == word_byte(fifo@[j / 4], j % 4),
            forall|j: int| fifo_bytes(old(buf)@.len() as int) <= j < old(buf)@.len() ==> #[trigger] final(buf)@[j] == old(buf)@[j],
    {
        let len_bytes = if buf.len() < FIFO_LEN_BYTES {
            buf.len()
        } else {
            FIFO_LEN_BYTES
        };
        let ghost n = len_bytes as int;
        let mut j: usize = 0;
        while j < len_bytes
            invariant
                len_bytes as int == n,
                n == fifo_bytes(old(buf)@.len() as int),
                n <= FIFO_LEN_BYTES,
                j <= len_bytes,
                fifo@.len() == FIFO_LEN_ITEMS,
                buf@.len() == old(buf)@.len(),
                forall|i: int| 0 <= i < j ==> #[trigger] buf@[i] == word_byte(fifo@[i / 4], i % 4),
                forall|i: int| j <= i < buf@.len() ==> #[trigger] buf@[i] == old(buf)@[i],
            decreases len_bytes - j,
        {
            let w = fifo[j / 4];
            buf[j] = byte_of_word(w, j % 4);
            j = j + 1;
        }
        Ok(len_bytes)
    }

    /// Copies what the host sent on OUT endpoint 0 out of the receive FIFO:
    /// byte `j` of `buf` becomes byte `j % 4` of FIFO word `j / 4`, for as
    /// many bytes as `buf` holds, up to 1536. Reports that many bytes read.
    pub fn read(&self, addr: EndpointAddress, buf: &mut [u8], fifo: &[u32]) -> (r: Result<
        usize,
        UsbError,
    >)
        requires
            self.wf(),
            fifo@.len() == FIFO_LEN_ITEMS,
        ensures
            final(buf)@.len() == old(buf)@.len(),
            !self.read_serves(addr) ==> r == Err::<usize, UsbError>(UsbError::InvalidEndpoint)
                && final(buf)@ == old(buf)@,
            self.read_serves(addr) ==> {
                let n = fifo_bytes(old(buf)@.len() as int);
                &&& r == Ok::<usize, UsbError>(n as usize)
                &&& forall|j: int| 0 <= j < n ==> #[trigger] final(buf)@[j] == word_byte(fifo@[j / 4], j % 4)
                &&& forall|j: int| n <= j < old(buf)@.len() ==> #[trigger] final(buf)@[j] == old(buf)@[j]
            },
    {
        if !addr.is_out() || addr.index() as usize > self.out_endpoints.len() {
            return Err(UsbError::InvalidEndpoint);
        }
        if addr.index() != 0 {
            return Err(UsbError::InvalidEndpoint);
        }
        self.control_rx(buf, fifo)
    }
}

} // verus!

verus! {

impl USB {
    /// The DCFG value that programs device address `addr` (its low seven
    /// bits) and keeps every other field of `dcfg`.
    pub fn set_device_address(&self, dcfg: u32, addr: u8) -> (r: u32)
        ensures
            (r & DCFG_DAD_MASK) >> DCFG_DAD_SHIFT == (addr as u32) & 0x7fu32,
            r & !DCFG_DAD_MASK == dcfg & !DCFG_DAD_MASK,
    {
        let a = (addr as u32) & 0x7f;
        assert(((addr as u32) & 0x7fu32) <= 0x7fu32) by (bit_vector);
        let r = (dcfg & !DCFG_DAD_MASK) | (a << DCFG_DAD_SHIFT);
        assert(((((dcfg & !0x7f0u32) | (a << 4u32)) & 0x7f0u32) >> 4u32 == a) && ((((dcfg
            & !0x7f0u32) | (a << 4u32)) & !0x7f0u32) == dcfg & !0x7f0u32)) by (bit_vector)
            requires
                a <= 0x7f,
        ;
        r
    }

    /// The new value of the endpoint-0 control register of `addr`'s
    /// direction, `ctl`, with its STALL bit set to `stalled`; `None` for any
    /// other endpoint, whose stall state is not kept.
    pub fn set_stalled(&self, addr: EndpointAddress, stalled: bool, ctl: u32) -> (r: Option<u32>)
        ensures
            addr.spec_index() != 0 ==> r is None,
            addr.spec_index() == 0 ==> r is Some && ((r->0 & EP0CTL_STALL) != 0) == stalled && (r->0
                & !EP0CTL_STALL) == (ctl & !EP0CTL_STALL),
    {
        if addr.index() != 0 {
            return None;
        }
        let v = if stalled {
            ctl | EP0CTL_STALL
        } else {
            ctl & !EP0CTL_STALL
        };
        assert((((ctl | 0x0020_0000u32) & 0x0020_0000u32) != 0) && (((ctl | 0x0020_0000u32)
            & !0x0020_0000u32) == (ctl & !0x0020_0000u32)) && (((ctl & !0x0020_0000u32)
            & 0x0020_0000u32) == 0) && (((ctl & !0x0020_0000u32) & !0x0020_0000u32) == (ctl
            & !0x0020_0000u32))) by (bit_vector);
        Some(v)
    }

    /// Whether endpoint `addr` is stalled, given its direction's endpoint-0
    /// control register `ctl`. Endpoints other than 0 keep no stall state and
    /// always report stalled.
    pub fn is_stalled(&self, addr: EndpointAddress, ctl: u32) -> (r: bool)
        ensures
            addr.spec_index() != 0 ==> r,
            addr.spec_index() == 0 ==> r == ((ctl & EP0CTL_STALL) != 0),
    {
        if addr.index() != 0 {
            true
        } else {
            (ctl & EP0CTL_STALL) != 0
        }
    }

    /// Decides what an interrupt with core status `gintsts` means. A bus reset
    /// or a finished speed enumeration both report `Reset`; otherwise the
    /// pending control IN transfer, if any, is taken as done.
    pub fn poll(&mut self, gintsts: u32) -> (r: PollResult)
        requires
            old(self).wf(),
        ensures
            final(self).wf(),
            final(self).endpoints_of(UsbDirection::In) == old(self).endpoints_of(UsbDirection::In),
            final(self).endpoints_of(UsbDirection::Out) == old(self).endpoints_of(UsbDirection::Out),
            final(self).control_of(UsbDirection::Out) == old(self).control_of(UsbDirection::Out),
            (gintsts & GINTSTS_USBRST) != 0 || (gintsts & GINTSTS_ENUMDONE) != 0 ==> r
                == PollResult::Reset && *final(self) == *old(self),
            (gintsts & GINTSTS_USBRST) == 0 && (gintsts & GINTSTS_ENUMDONE) == 0 ==> {
                &&& r == PollResult::NoEvent
                &&& final(self).control_of(UsbDirection::In) is Some <==> old(self).control_of(UsbDirection::In) is Some
                &&& final(self).control_of(UsbDirection::In) is Some ==> !(final(self).control_of(UsbDirection::In)->0).spec_pending()
            },
    {
        let reset = (gintsts & GINTSTS_USBRST) != 0;
        let enum_done = (gintsts & GINTSTS_ENUMDONE) != 0;
        if reset {
            self.reset();
            return PollResult::Reset;
        }
        if enum_done {
            return PollResult::Reset;
        }
        if self.in_ctrl.is_some() {
            let mut endpoint = ControlEndpoint::new();
            endpoint.unpend();
            self.in_ctrl = Some(endpoint);
        }
        PollResult::NoEvent
    }

    /// The GINTSTS flags a poll acknowledges: bus reset and enumeration done,
    /// where set. Writing them back clears them.
    pub fn poll_acknowledge(&self, gintsts: u32) -> (r: u32)
        ensures
            r & GINTSTS_USBRST == gintsts & GINTSTS_USBRST,
            r & GINTSTS_ENUMDONE == gintsts & GINTSTS_ENUMDONE,
            r & !(GINTSTS_USBRST | GINTSTS_ENUMDONE) == 0,
    {
        let r = gintsts & (GINTSTS_USBRST | GINTSTS_ENUMDONE);
        assert((((gintsts & (0x1000u32 | 0x2000u32)) & 0x1000u32) == gintsts & 0x1000u32) && (((
        gintsts & (0x1000u32 | 0x2000u32)) & 0x2000u32) == gintsts & 0x2000u32) && (((gintsts & (
        0x1000u32 | 0x2000u32)) & !(0x1000u32 | 0x2000u32)) == 0)) by (bit_vector);
        r
    }

    /// Room for a transfer on IN endpoint `addr`: the MPS field of `diep0ctl`
    /// for endpoint 0, nothing for the others.
    pub fn get_available_tx_space(&self, addr: EndpointAddress, diep0ctl: u32) -> (r: usize)
        ensures
            addr.spec_index() == 0 ==> r == (diep0ctl & DIEP0CTL_MPS_MASK),
            addr.spec_index() != 0 ==> r == 0,
    {
        if addr.index() == 0 {
            (diep0ctl & DIEP0CTL_MPS_MASK) as usize
        } else {
            0
        }
    }

    /// Room for a transfer on OUT endpoint `addr`: four bytes per word of the
    /// XFERSIZE field of `doep0tsiz` for endpoint 0, nothing for the others.
    pub fn get_available_rx_space(&self, addr: EndpointAddress, doep0tsiz: u32) -> (r: usize)
        ensures
            addr.spec_index() == 0 ==> r == (doep0tsiz & DOEP0TSIZ_XFERSIZE_MASK) * 4,
            addr.spec_index() != 0 ==> r == 0,
    {
        if addr.index() == 0 {
            let x = doep0tsiz & DOEP0TSIZ_XFERSIZE_MASK;
            assert((doep0tsiz & 0x7fu32) <= 0x7fu32) by (bit_vector);
            (x as usize) * 4
        } else {
            0
        }
    }
}

} // verus!
