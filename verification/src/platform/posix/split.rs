//! The reader and writer halves of a TUN descriptor: their buffers, the
//! packet information header they add and strip, and the bookkeeping
//! around each read and write. The system calls themselves are the
//! caller's.
use crate::buffers::{bytes_as_slice, bytes_contents};
use crate::codec::{generate_packet_information, is_ipv6, packet_information_header, spec_is_ipv6};
use crate::error::Result;
use crate::PACKET_INFORMATION_LENGTH;
use vstd::prelude::*;

verus! {

/// Copies `src` over the start of `dst`.
fn copy_into(dst: &mut Vec<u8>, at: usize, src: &[u8])
    requires
        at + src@.len() <= old(dst)@.len(),
    ensures
        final(dst)@ == old(dst)@.take(at as int) + src@ + old(dst)@.skip(at + src@.len()),
{
    let dlen = dst.len();
    let mut i: usize = 0;
    while i < src.len()
        invariant
            at + src@.len() <= old(dst)@.len(),
            dlen == old(dst)@.len(),
            dst@.len() == old(dst)@.len(),
            i <= src@.len(),
            forall|j: int| 0 <= j < at ==> dst@[j] == old(dst)@[j],
            forall|j: int| 0 <= j < i ==> dst@[at + j] == src@[j],
            forall|j: int| at + i <= j < dst@.len() ==> dst@[j] == old(dst)@[j],
        decreases src@.len() - i,
    {
        dst.set(at + i, src[i]);
        i += 1;
    }
    assert(dst@ =~= old(dst)@.take(at as int) + src@ + old(dst)@.skip(at + src@.len()));
}

/// Copies `src` over the start of `dst`.
fn copy_into_slice(dst: &mut [u8], src: &[u8])
    requires
        src@.len() <= old(dst)@.len(),
    ensures
        final(dst)@ == src@ + old(dst)@.skip(src@.len() as int),
{
    let mut i: usize = 0;
    while i < src.len()
        invariant
            src@.len() <= old(dst)@.len(),
            dst@.len() == old(dst)@.len(),
            i <= src@.len(),
            forall|j: int| 0 <= j < i ==> dst@[j] == src@[j],
            forall|j: int| i <= j < dst@.len() ==> dst@[j] == old(dst)@[j],
        decreases src@.len() - i,
    {
        dst[i] = src[i];
        i += 1;
    }
    assert(dst@ =~= src@ + old(dst)@.skip(src@.len() as int));
}

/// The settings of a TUN descriptor.
#[derive(Clone, Copy, Debug, PartialEq, Eq, Structural)]
pub struct TunInfo {
    pub(crate) mtu: usize,
    pub(crate) packet_information: bool,
}

/// Read-only end for a file descriptor.
pub struct Reader {
    pub(crate) fd: i32,
    pub(crate) offset: usize,
    pub(crate) buf: Vec<u8>,
}

/// Write-only end for a file descriptor.
pub struct Writer {
    pub(crate) fd: i32,
    pub(crate) offset: usize,
    pub(crate) buf: Vec<u8>,
}

/// Length of the header in front of each frame: that of the packet
/// information header, or nothing.
pub open spec fn frame_offset(packet_information: bool) -> usize {
    if packet_information {
        PACKET_INFORMATION_LENGTH
    } else {
        0
    }
}

impl Reader {
    /// The descriptor this end reads from.
    pub closed spec fn spec_fd(&self) -> i32 {
        self.fd
    }

    /// The header length stripped from each frame read.
    pub closed spec fn spec_offset(&self) -> usize {
        self.offset
    }

    /// The frame buffer that each read fills.
    pub closed spec fn spec_buf(&self) -> Seq<u8> {
        self.buf@
    }

    /// Makes room in the frame buffer for frames of `value` bytes; the
    /// buffer's length and contents stay as they are.
    pub fn set_mtu(&mut self, value: usize)
        requires
            value + old(self).spec_offset() <= usize::MAX,
        ensures
            final(self).spec_fd() == old(self).spec_fd(),
            final(self).spec_offset() == old(self).spec_offset(),
            final(self).spec_buf() == old(self).spec_buf(),
    {
        self.buf.reserve(value + self.offset);
    }

    /// The descriptor this end reads from.
    pub fn fd(&self) -> (fd: i32)
        ensures
            fd == self.spec_fd(),
    {
        self.fd
    }

    /// The header length stripped from each frame read.
    pub fn offset(&self) -> (o: usize)
        ensures
            o == self.spec_offset(),
    {
        self.offset
    }

    /// The frame buffer that a read of the descriptor fills.
    pub fn buffer_mut(&mut self) -> (b: &mut [u8])
        ensures
            b@ == old(self).spec_buf(),
            final(self).spec_buf() == final(b)@,
            final(self).spec_fd() == old(self).spec_fd(),
            final(self).spec_offset() == old(self).spec_offset(),
    {
        self.buf.as_mut_slice()
    }

    /// Hands out a frame of `amount` bytes that a read left in the frame
    /// buffer: copies its packet, the frame without its header, to the
    /// start of `buf` and returns the packet's length.
    pub fn read_buffered(&self, amount: usize, buf: &mut [u8]) -> (n: usize)
        requires
            self.spec_offset() <= amount <= self.spec_buf().len(),
            amount - self.spec_offset() <= old(buf)@.len(),
        ensures
            n == amount - self.spec_offset(),
            final(buf)@ == self.spec_buf().subrange(self.spec_offset() as int, amount as int) + old(buf)@.skip(n as int),
    {
        let packet = vstd::slice::slice_subrange(self.buf.as_slice(), self.offset, amount);
        copy_into_slice(buf, packet);
        amount - self.offset
    }
}

/// The frame that `Writer::frame` builds for a packet: the packet behind
/// its packet information header where the writer adds one.
pub open spec fn spec_frame(offset: usize, packet: Seq<u8>) -> Result<Seq<u8>> {
    if offset == 0 {
        Ok(packet)
    } else {
        match spec_is_ipv6(packet) {
            Ok(ipv6) => Ok(packet_information_header(ipv6) + packet),
            Err(e) => Err(e),
        }
    }
}

impl Writer {
    /// The descriptor this end writes to.
    pub closed spec fn spec_fd(&self) -> i32 {
        self.fd
    }

    /// The header length added in front of each packet written.
    pub closed spec fn spec_offset(&self) -> usize {
        self.offset
    }

    /// The buffer frames are built in.
    pub closed spec fn spec_buf(&self) -> Seq<u8> {
        self.buf@
    }

    /// The frames this writer builds fit its buffer: the header is either
    /// absent or the packet information header, and the buffer holds it.
    pub open spec fn wf(&self) -> bool {
        &&& self.spec_offset() == 0 || self.spec_offset() == PACKET_INFORMATION_LENGTH
        &&& self.spec_offset() <= self.spec_buf().len()
    }

    /// The descriptor this end writes to.
    pub fn fd(&self) -> (fd: i32)
        ensures
            fd == self.spec_fd(),
    {
        self.fd
    }

    /// The header length added in front of each packet written.
    pub fn offset(&self) -> (o: usize)
        ensures
            o == self.spec_offset(),
    {
        self.offset
    }

    /// The length of the buffer frames are built in.
    pub fn buffer_len(&self) -> (n: usize)
        ensures
            n == self.spec_buf().len(),
    {
        self.buf.len()
    }

    /// Builds the frame to write for the packet `buf`. Without a header
    /// that is the packet itself, and the writer's buffer is left as it is;
    /// with one, the packet information header for the packet's IP version
    /// followed by the packet, built in the writer's buffer. Fails, changing
    /// nothing, where the packet's IP version cannot be read.
    pub fn frame<'a>(&'a mut self, buf: &'a [u8]) -> (r: Result<&'a [u8]>)
        requires
            old(self).wf(),
            old(self).spec_offset() != 0 && spec_is_ipv6(buf@) is Ok ==> old(self).spec_offset()
                + buf@.len() <= old(self).spec_buf().len(),
        ensures
            final(self).wf(),
            final(self).spec_fd() == old(self).spec_fd(),
            final(self).spec_offset() == old(self).spec_offset(),
            final(self).spec_buf().len() == old(self).spec_buf().len(),
            old(self).spec_offset() == 0 || r is Err ==> final(self).spec_buf() == old(self).spec_buf(),
            old(self).spec_offset() != 0 && r is Ok ==> final(self).spec_buf() == spec_frame(
                old(self).spec_offset(),
                buf@,
            )->Ok_0 + old(self).spec_buf().skip(old(self).spec_offset() + buf@.len()),
            r is Ok <==> spec_frame(old(self).spec_offset(), buf@) is Ok,
            r matches Err(e) ==> spec_frame(old(self).spec_offset(), buf@) == Err::<Seq<u8>, _>(e),
            r matches Ok(f) ==> spec_frame(old(self).spec_offset(), buf@) == Ok::<_, crate::Error>(f@),
    {
        if self.offset != 0 {
            let ipv6 = match is_ipv6(buf) {
                Ok(v) => v,
                Err(e) => return Err(e),
            };
            match generate_packet_information(true, ipv6) {
                Some(header) => {
                    let buf_len = self.buf.len();
                    assert(self.offset + buf@.len() <= buf_len);
                    let header = bytes_as_slice(&header);
                    copy_into(&mut self.buf, 0, header);
                    let len = self.offset + buf.len();
                    copy_into(&mut self.buf, self.offset, buf);
                    let frame = vstd::slice::slice_subrange(self.buf.as_slice(), 0, len);
                    assert(frame@ =~= packet_information_header(ipv6) + buf@);
                    assert(self.buf@ =~= packet_information_header(ipv6) + buf@ + old(self).buf@.skip(
                        len as int,
                    ));
                    Ok(frame)
                },
                None => Ok(buf),
            }
        } else {
            Ok(buf)
        }
    }

    /// The number of packet bytes a write of `amount` frame bytes carried.
    pub fn written(&self, amount: usize) -> (n: usize)
        requires
            amount >= self.spec_offset(),
        ensures
            n == amount - self.spec_offset(),
    {
        amount - self.offset
    }
}

/// `u` keeps the header setting of `t`: the packet information setting,
/// the descriptor and header length of each end, and the length of the
/// buffer the writer builds frames in.
pub open spec fn keeps_header_setting(t: Tun, u: Tun) -> bool {
    &&& u.spec_packet_information() == t.spec_packet_information()
    &&& u.spec_reader().spec_fd() == t.spec_reader().spec_fd()
    &&& u.spec_reader().spec_offset() == t.spec_reader().spec_offset()
    &&& u.spec_writer().spec_fd() == t.spec_writer().spec_fd()
    &&& u.spec_writer().spec_offset() == t.spec_writer().spec_offset()
    &&& u.spec_writer().spec_buf().len() == t.spec_writer().spec_buf().len()
}

/// A TUN descriptor split into a reading and a writing end.
pub struct Tun {
    pub(crate) reader: Reader,
    pub(crate) writer: Writer,
    pub(crate) info: TunInfo,
}

impl Tun {
    /// The reading end.
    pub closed spec fn spec_reader(&self) -> Reader {
        self.reader
    }

    /// The writing end.
    pub closed spec fn spec_writer(&self) -> Writer {
        self.writer
    }

    /// Whether frames carry a packet information header.
    pub closed spec fn spec_packet_information(&self) -> bool {
        self.info.packet_information
    }

    /// The MTU set last.
    pub closed spec fn spec_mtu(&self) -> usize {
        self.info.mtu
    }

    /// Both ends share the descriptor and the header setting, and the
    /// writer can build its frames.
    pub open spec fn wf(&self) -> bool {
        &&& self.spec_reader().spec_fd() == self.spec_writer().spec_fd()
        &&& self.spec_reader().spec_offset() == frame_offset(self.spec_packet_information())
        &&& self.spec_writer().spec_offset() == frame_offset(self.spec_packet_information())
        &&& self.spec_writer().wf()
    }

    /// Sets up both ends of the descriptor `fd` for frames of `mtu` bytes,
    /// with a packet information header in front of each when
    /// `packet_information` is set. Each end gets a zeroed buffer of the
    /// MTU plus the header length.
    pub fn new(fd: i32, mtu: usize, packet_information: bool) -> (t: Self)
        requires
            mtu + frame_offset(packet_information) <= usize::MAX,
        ensures
            t.wf(),
            t.spec_reader().spec_fd() == fd,
            t.spec_mtu() == mtu,
            t.spec_packet_information() == packet_information,
            t.spec_reader().spec_buf() == Seq::new((mtu + frame_offset(packet_information)) as nat, |i| 0u8),
            t.spec_writer().spec_buf() == Seq::new((mtu + frame_offset(packet_information)) as nat, |i| 0u8),
    {
        let offset = if packet_information {
            PACKET_INFORMATION_LENGTH
        } else {
            0
        };
        let reader_buf = vec![0u8; mtu + offset];
        let writer_buf = vec![0u8; mtu + offset];
        let t = Self {
            reader: Reader { fd, offset, buf: reader_buf },
            writer: Writer { fd, offset, buf: writer_buf },
            info: TunInfo { mtu, packet_information },
        };
        assert(t.reader.buf@ =~= Seq::new((mtu + offset) as nat, |i| 0u8));
        assert(t.writer.buf@ =~= Seq::new((mtu + offset) as nat, |i| 0u8));
        t
    }

    /// Records a new MTU and makes room for it in the reader's buffer.
    pub fn set_mtu(&mut self, value: usize)
        requires
            value + old(self).spec_reader().spec_offset() <= usize::MAX,
        ensures
            final(self).wf() == old(self).wf(),
            keeps_header_setting(*old(self), *final(self)),
            final(self).spec_mtu() == value,
            final(self).spec_packet_information() == old(self).spec_packet_information(),
            final(self).spec_reader().spec_fd() == old(self).spec_reader().spec_fd(),
            final(self).spec_reader().spec_offset() == old(self).spec_reader().spec_offset(),
            final(self).spec_reader().spec_buf() == old(self).spec_reader().spec_buf(),
            final(self).spec_writer() == old(self).spec_writer(),
    {
        self.info.mtu = value;
        self.reader.set_mtu(value);
    }

    /// Whether frames carry a packet information header.
    pub fn packet_information(&self) -> (b: bool)
        ensures
            b == self.spec_packet_information(),
    {
        self.info.packet_information
    }

    /// The MTU set last.
    pub fn mtu(&self) -> (m: usize)
        ensures
            m == self.spec_mtu(),
    {
        self.info.mtu
    }

    /// The reading end, to read frames with.
    pub fn reader_mut(&mut self) -> (r: &mut Reader)
        ensures
            *r == old(self).spec_reader(),
            final(self).spec_reader() == *final(r),
            final(self).spec_writer() == old(self).spec_writer(),
            final(self).spec_mtu() == old(self).spec_mtu(),
            final(self).spec_packet_information() == old(self).spec_packet_information(),
            final(r).spec_fd() == r.spec_fd() && final(r).spec_offset() == r.spec_offset()
                ==> keeps_header_setting(*old(self), *final(self)),
    {
        &mut self.reader
    }

    /// The writing end, to write frames with.
    pub fn writer_mut(&mut self) -> (w: &mut Writer)
        ensures
            *w == old(self).spec_writer(),
            final(self).spec_writer() == *final(w),
            final(self).spec_reader() == old(self).spec_reader(),
            final(self).spec_mtu() == old(self).spec_mtu(),
            final(self).spec_packet_information() == old(self).spec_packet_information(),
            final(w).spec_fd() == w.spec_fd() && final(w).spec_offset() == w.spec_offset()
                && final(w).spec_buf().len() == w.spec_buf().len() ==> keeps_header_setting(
                *old(self),
                *final(self),
            ),
    {
        &mut self.writer
    }

    /// Splits into the reading and the writing end.
    pub fn into_parts(self) -> (rw: (Reader, Writer))
        ensures
            rw.0 == self.spec_reader(),
            rw.1 == self.spec_writer(),
    {
        (self.reader, self.writer)
    }
}

/// A frame built for a packet, stripped of its header as a read strips
/// it, gives back the packet; and a write that sends the whole frame
/// reports the packet's length.
pub proof fn law_frame_then_strip(packet_information: bool, packet: Seq<u8>)
    requires
        spec_frame(frame_offset(packet_information), packet) is Ok,
    ensures
        ({
            let offset = frame_offset(packet_information);
            let frame = spec_frame(offset, packet)->Ok_0;
            &&& offset <= frame.len()
            &&& frame.subrange(offset as int, frame.len() as int) == packet
            &&& frame.len() - offset == packet.len()
        }),
{
    let offset = frame_offset(packet_information);
    let frame = spec_frame(offset, packet)->Ok_0;
    assert(frame.subrange(offset as int, frame.len() as int) =~= packet);
}

/// A TUN descriptor keeps its packet information setting, and both ends
/// keep the header length that setting gives, through any sequence of
/// steps that each keep the header setting (as `set_mtu` does, and as the
/// reader's and the writer's methods do through `reader_mut` and
/// `writer_mut`).
pub proof fn law_tun_keeps_header_setting(t: Tun, u: Tun, v: Tun)
    requires
        t.wf(),
        keeps_header_setting(t, u),
        keeps_header_setting(u, v),
    ensures
        keeps_header_setting(t, v),
        v.wf(),
        v.spec_packet_information() == t.spec_packet_information(),
        v.spec_reader().spec_offset() == frame_offset(t.spec_packet_information()),
        v.spec_writer().spec_offset() == frame_offset(t.spec_packet_information()),
{
}

/// A TUN descriptor created well formed keeps its packet information
/// setting, and both ends keep the header length that setting gives, in
/// every state of any sequence of states in which each keeps the header
/// setting of the one before it (as each call of `set_mtu`, and each use of
/// the reader's or the writer's methods through `reader_mut` and
/// `writer_mut`, does).
pub proof fn law_tun_header_setting_through_steps(states: Seq<Tun>)
    requires
        states.len() > 0,
        states[0].wf(),
        forall|i: int|
            0 <= i < states.len() - 1 ==> keeps_header_setting(#[trigger] states[i], states[i + 1]),
    ensures
        forall|i: int|
            0 <= i < states.len() ==> {
                &&& (#[trigger] states[i]).wf()
                &&& keeps_header_setting(states[0], states[i])
                &&& states[i].spec_packet_information() == states[0].spec_packet_information()
                &&& states[i].spec_reader().spec_offset() == frame_offset(
                    states[0].spec_packet_information(),
                )
                &&& states[i].spec_writer().spec_offset() == frame_offset(
                    states[0].spec_packet_information(),
                )
            },
    decreases states.len(),
{
    if states.len() > 1 {
        let prefix = states.drop_last();
        assert forall|i: int| 0 <= i < prefix.len() - 1 implies keeps_header_setting(
            #[trigger] prefix[i],
            prefix[i + 1],
        ) by {
            assert(prefix[i] == states[i] && prefix[i + 1] == states[i + 1]);
            assert(keeps_header_setting(states[i], states[i + 1]));
        }
        law_tun_header_setting_through_steps(prefix);
        let n = states.len() - 1;
        assert(prefix[n - 1] == states[n - 1]);
        assert(keeps_header_setting(states[n - 1], states[n]));
        law_tun_keeps_header_setting(states[0], states[n - 1], states[n]);
        assert forall|i: int| 0 <= i < states.len() implies {
            &&& (#[trigger] states[i]).wf()
            &&& keeps_header_setting(states[0], states[i])
            &&& states[i].spec_packet_information() == states[0].spec_packet_information()
            &&& states[i].spec_reader().spec_offset() == frame_offset(
                states[0].spec_packet_information(),
            )
            &&& states[i].spec_writer().spec_offset() == frame_offset(
                states[0].spec_packet_information(),
            )
        } by {
            if i < n {
                assert(prefix[i] == states[i]);
            }
        }
    } else {
        law_tun_keeps_header_setting(states[0], states[0], states[0]);
    }
}

/// What framing a packet gives: the packet itself without a header; with
/// the packet information header, that header followed by the packet where
/// its IP version can be read, and the error of reading it otherwise.
pub proof fn law_frame_outcomes(packet: Seq<u8>)
    ensures
        spec_frame(0, packet) == Ok::<Seq<u8>, crate::Error>(packet),
        spec_is_ipv6(packet) matches Ok(v) ==> spec_frame(PACKET_INFORMATION_LENGTH, packet)
            == Ok::<Seq<u8>, crate::Error>(packet_information_header(v) + packet),
        spec_is_ipv6(packet) matches Err(e) ==> spec_frame(PACKET_INFORMATION_LENGTH, packet)
            == Err::<Seq<u8>, crate::Error>(e),
{
}

/// The header of a frame names the IP version of its packet: its last
/// two bytes are the EtherType of IPv6 exactly when the packet is IPv6.
pub proof fn law_frame_header_names_version(packet: Seq<u8>)
    requires
        spec_is_ipv6(packet) is Ok,
    ensures
        ({
            let frame = spec_frame(PACKET_INFORMATION_LENGTH, packet)->Ok_0;
            &&& frame[0] == 0 && frame[1] == 0
            &&& (frame[2] == 0x86 && frame[3] == 0xDD) <==> spec_is_ipv6(packet) == Ok::<bool, crate::Error>(true)
            &&& (frame[2] == 0x08 && frame[3] == 0x00) <==> spec_is_ipv6(packet) == Ok::<bool, crate::Error>(false)
        }),
{
}

} // verus!
