//! Decoder for server-sent-event framing: a byte stream of lines, where
//! "data:" lines accumulate a payload and a blank line dispatches it.
//!
//! The engine reads the event kind from the JSON payload itself, so a
//! dispatched frame is exactly the accumulated data payload. Lines end at
//! LF, CR, or CRLF; comment lines start with a colon; a field's value
//! loses one leading space; consecutive data lines are joined with LF;
//! a blank line with an empty payload dispatches nothing.

use vstd::prelude::*;

verus! {

/// Carriage return.
pub const BYTE_CR: u8 = 13;

/// Line feed.
pub const BYTE_LF: u8 = 10;

/// Colon, the field separator.
pub const BYTE_COLON: u8 = 58;

/// Space, stripped once after the separator.
pub const BYTE_SPACE: u8 = 32;

/// The mathematical state of the decoder: the line being read, whether a
/// carriage return was just seen, and the payload accumulated so far.
pub struct SseDecoderView {
    pub cur: Seq<u8>,
    pub prev_cr: bool,
    pub data: Seq<u8>,
}

/// The field name whose lines accumulate the payload.
pub open spec fn spec_data_field() -> Seq<u8> {
    seq![100u8, 97u8, 116u8, 97u8]
}

/// The first index at or after `from` holding a colon, or the length.
pub open spec fn spec_colon_at(line: Seq<u8>, from: int) -> int
    decreases line.len() - from,
{
    if from < 0 || from >= line.len() {
        line.len() as int
    } else if line[from] == BYTE_COLON {
        from
    } else {
        spec_colon_at(line, from + 1)
    }
}

/// A field line split into name and value: the name before the first
/// colon, the value after it with one leading space removed.
pub open spec fn spec_field_split(line: Seq<u8>) -> (Seq<u8>, Seq<u8>) {
    let c = spec_colon_at(line, 0);
    let name = line.take(c);
    let raw = if c < line.len() {
        line.skip(c + 1)
    } else {
        Seq::empty()
    };
    let value = if raw.len() > 0 && raw[0] == BYTE_SPACE {
        raw.drop_first()
    } else {
        raw
    };
    (name, value)
}

/// How one complete line changes the payload buffer, and what it
/// dispatches: a blank line dispatches the payload without its trailing
/// LF (or nothing when empty); a comment is ignored; a data field appends
/// its value and an LF; any other field is ignored.
pub open spec fn spec_process_line(data: Seq<u8>, line: Seq<u8>) -> (Seq<u8>, Option<Seq<u8>>) {
    if line.len() == 0 {
        if data.len() == 0 {
            (data, None)
        } else {
            (Seq::empty(), Some(data.drop_last()))
        }
    } else if line[0] == BYTE_COLON {
        (data, None)
    } else {
        let (name, value) = spec_field_split(line);
        if name == spec_data_field() {
            (data + value + seq![BYTE_LF], None)
        } else {
            (data, None)
        }
    }
}

/// How one byte advances the decoder: an LF right after a CR is the tail
/// of one terminator; a CR or LF terminates the current line; any other
/// byte extends it.
pub open spec fn spec_feed_byte(st: SseDecoderView, b: u8) -> (SseDecoderView, Option<Seq<u8>>) {
    if st.prev_cr && b == BYTE_LF {
        (SseDecoderView { cur: st.cur, prev_cr: false, data: st.data }, None)
    } else if b == BYTE_CR || b == BYTE_LF {
        let (data, frame) = spec_process_line(st.data, st.cur);
        (SseDecoderView { cur: Seq::empty(), prev_cr: b == BYTE_CR, data }, frame)
    } else {
        (SseDecoderView { cur: st.cur.push(b), prev_cr: false, data: st.data }, None)
    }
}

/// The decoder's starting state.
pub open spec fn spec_decoder_init() -> SseDecoderView {
    SseDecoderView { cur: Seq::empty(), prev_cr: false, data: Seq::empty() }
}

/// The state and dispatched frames after feeding a byte string.
pub open spec fn spec_decode_fold(st: SseDecoderView, bytes: Seq<u8>) -> (
    SseDecoderView,
    Seq<Seq<u8>>,
)
    decreases bytes.len(),
{
    if bytes.len() == 0 {
        (st, Seq::empty())
    } else {
        let (st1, frame) = spec_feed_byte(st, bytes.first());
        let (st2, frames) = spec_decode_fold(st1, bytes.drop_first());
        match frame {
            Some(f) => (st2, seq![f] + frames),
            None => (st2, frames),
        }
    }
}

/// The frames dispatched while decoding a whole byte string from the
/// starting state.
pub open spec fn spec_frames(bytes: Seq<u8>) -> Seq<Seq<u8>> {
    spec_decode_fold(spec_decoder_init(), bytes).1
}

/// Copies a byte list.
pub fn clone_bytes(v: &Vec<u8>) -> (r: Vec<u8>)
    ensures
        r@ == v@,
{
    let mut r: Vec<u8> = Vec::new();
    let mut i: usize = 0;
    while i < v.len()
        invariant
            i <= v@.len(),
            r@ == v@.take(i as int),
        decreases v@.len() - i,
    {
        r.push(v[i]);
        proof {
            assert(v@.take(i + 1 as int) =~= v@.take(i as int).push(v@[i as int]));
        }
        i = i + 1;
    }
    proof {
        assert(v@.take(v@.len() as int) =~= v@);
    }
    r
}

/// The streaming decoder.
pub struct SseDecoder {
    pub cur: Vec<u8>,
    pub prev_cr: bool,
    pub data: Vec<u8>,
}

impl View for SseDecoder {
    type V = SseDecoderView;

    open spec fn view(&self) -> SseDecoderView {
        SseDecoderView { cur: self.cur@, prev_cr: self.prev_cr, data: self.data@ }
    }
}

impl SseDecoder {
    /// A decoder in the starting state.
    pub fn new() -> (r: SseDecoder)
        ensures
            r@ == spec_decoder_init(),
    {
        let r = SseDecoder { cur: Vec::new(), prev_cr: false, data: Vec::new() };
        proof {
            assert(r@.cur =~= spec_decoder_init().cur);
            assert(r@.data =~= spec_decoder_init().data);
        }
        r
    }

    /// Handles one complete line.
    #[verifier::loop_isolation(false)]
    fn process_line(&mut self, line: Vec<u8>) -> (r: Option<Vec<u8>>)
        ensures
            ({
                let (data, frame) = spec_process_line(old(self)@.data, line@);
                &&& final(self)@.data == data
                &&& final(self)@.cur == old(self)@.cur
                &&& final(self)@.prev_cr == old(self)@.prev_cr
                &&& (r is Some <==> frame is Some)
                &&& (r matches Some(v) ==> frame == Some(v@))
            }),
    {
        if line.len() == 0 {
            if self.data.len() == 0 {
                return None;
            }
            let mut out: Vec<u8> = Vec::new();
            let n = self.data.len() - 1;
            let mut i: usize = 0;
            while i < n
                invariant
                    i <= n,
                    out@ == self.data@.take(i as int),
                    self@ == old(self)@,
                decreases n - i,
            {
                out.push(self.data[i]);
                proof {
                    assert(self.data@.take(i + 1 as int) =~= self.data@.take(i as int).push(
                        self.data@[i as int],
                    ));
                }
                i = i + 1;
            }
            proof {
                assert(self.data@.take(n as int) =~= self.data@.drop_last());
            }
            self.data = Vec::new();
            return Some(out);
        }
        if line[0] == BYTE_COLON {
            return None;
        }
        // Find the separator and check whether the field is "data".
        let mut c: usize = 0;
        while c < line.len() && line[c] != BYTE_COLON
            invariant
                c <= line@.len(),
                spec_colon_at(line@, 0) == spec_colon_at(line@, c as int),
            decreases line@.len() - c,
        {
            c = c + 1;
        }
        let is_data = c == 4 && line[0] == 100 && line[1] == 97 && line[2] == 116 && line[3] == 97;
        proof {
            let cx = spec_colon_at(line@, 0);
            assert(cx == c);
            let name = line@.take(cx);
            assert(name.len() == c);
            assert(spec_data_field().len() == 4);
            if is_data {
                assert(name =~= spec_data_field());
            } else {
                if c == 4 {
                    assert(name[0] == line@[0] && name[1] == line@[1] && name[2] == line@[2]
                        && name[3] == line@[3]);
                    assert(spec_data_field()[0] == 100 && spec_data_field()[1] == 97
                        && spec_data_field()[2] == 116 && spec_data_field()[3] == 97);
                }
                assert(name != spec_data_field());
            }
        }
        if !is_data {
            return None;
        }
        // Append the value and a line feed to the payload buffer.
        let vstart = if c >= line.len() {
            line.len()
        } else if c + 1 < line.len() && line[c + 1] == BYTE_SPACE {
            c + 2
        } else {
            c + 1
        };
        let ghost value = spec_field_split(line@).1;
        proof {
            if c < line@.len() {
                let raw = line@.skip(c + 1 as int);
                assert(value =~= line@.skip(vstart as int));
            } else {
                assert(value =~= line@.skip(vstart as int));
            }
        }
        let ghost data0 = self.data@;
        let mut j = vstart;
        proof {
            assert(data0 + value.take(0) =~= data0);
        }
        while j < line.len()
            invariant
                vstart <= j <= line@.len(),
                self.data@ == data0 + value.take(j - vstart as int),
                self.cur@ == old(self)@.cur,
                self.prev_cr == old(self)@.prev_cr,
            decreases line@.len() - j,
        {
            self.data.push(line[j]);
            proof {
                assert(value[j - vstart as int] == line@[j as int]);
                assert(data0 + value.take(j + 1 - vstart as int) =~= (data0 + value.take(
                    j - vstart as int,
                )).push(line@[j as int]));
            }
            j = j + 1;
        }
        proof {
            assert(value.take(line@.len() - vstart as int) =~= value);
        }
        self.data.push(BYTE_LF);
        proof {
            assert(self.data@ =~= data0 + value + seq![BYTE_LF]);
        }
        None
    }

    /// Feeds one byte, returning a dispatched payload if the byte
    /// completed a blank line.
    pub fn feed(&mut self, b: u8) -> (r: Option<Vec<u8>>)
        ensures
            ({
                let (st, frame) = spec_feed_byte(old(self)@, b);
                &&& final(self)@ == st
                &&& (r is Some <==> frame is Some)
                &&& (r matches Some(v) ==> frame == Some(v@))
            }),
    {
        if self.prev_cr && b == BYTE_LF {
            self.prev_cr = false;
            return None;
        }
        if b == BYTE_CR || b == BYTE_LF {
            let mut line: Vec<u8> = Vec::new();
            core::mem::swap(&mut line, &mut self.cur);
            let frame = self.process_line(line);
            self.prev_cr = b == BYTE_CR;
            proof {
                assert(self.cur@ =~= Seq::<u8>::empty());
            }
            return frame;
        }
        self.cur.push(b);
        self.prev_cr = false;
        None
    }

    /// Feeds a whole byte string, collecting every dispatched payload in
    /// order.
    #[verifier::loop_isolation(false)]
    pub fn decode(&mut self, bytes: &Vec<u8>) -> (r: Vec<Vec<u8>>)
        ensures
            ({
                let (st, frames) = spec_decode_fold(old(self)@, bytes@);
                &&& final(self)@ == st
                &&& r@.map_values(|f: Vec<u8>| f@) == frames
            }),
    {
        let mut out: Vec<Vec<u8>> = Vec::new();
        let mut i: usize = 0;
        proof {
            assert(bytes@.skip(0) =~= bytes@);
            assert(Seq::<Seq<u8>>::empty() + spec_decode_fold(old(self)@, bytes@).1
                =~= spec_decode_fold(old(self)@, bytes@).1);
            assert(out@.map_values(|f: Vec<u8>| f@) =~= Seq::<Seq<u8>>::empty());
        }
        while i < bytes.len()
            invariant
                i <= bytes@.len(),
                spec_decode_fold(old(self)@, bytes@).1 == out@.map_values(|f: Vec<u8>| f@)
                    + spec_decode_fold(self@, bytes@.skip(i as int)).1,
                spec_decode_fold(self@, bytes@.skip(i as int)).0 == spec_decode_fold(
                    old(self)@,
                    bytes@,
                ).0,
            decreases bytes@.len() - i,
        {
            proof {
                assert(bytes@.skip(i as int).first() == bytes@[i as int]);
                assert(bytes@.skip(i as int).drop_first() =~= bytes@.skip(i + 1 as int));
            }
            let ghost prev_out = out@;
            let ghost prev_st = self@;
            let frame = self.feed(bytes[i]);
            match frame {
                Some(f) => {
                    let ghost fv = f@;
                    out.push(f);
                    proof {
                        assert(out@.drop_last() =~= prev_out);
                        assert(out@.map_values(|f: Vec<u8>| f@) =~= prev_out.map_values(
                            |f: Vec<u8>| f@,
                        ).push(fv));
                        assert(prev_out.map_values(|f: Vec<u8>| f@).push(fv) + spec_decode_fold(
                            self@,
                            bytes@.skip(i + 1 as int),
                        ).1 =~= prev_out.map_values(|f: Vec<u8>| f@) + (seq![fv]
                            + spec_decode_fold(self@, bytes@.skip(i + 1 as int)).1));
                    }
                },
                None => {},
            }
            i = i + 1;
        }
        proof {
            assert(bytes@.skip(bytes@.len() as int) =~= Seq::<u8>::empty());
            assert(out@.map_values(|f: Vec<u8>| f@) + Seq::<Seq<u8>>::empty() =~= out@.map_values(
                |f: Vec<u8>| f@,
            ));
        }
        out
    }
}

} // verus!
