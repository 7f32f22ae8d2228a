use vstd::prelude::*;

verus! {

/// The mathematical content of a frame.
pub ghost struct FrameView {
    pub width: nat,
    pub height: nat,
    pub channels: nat,
    pub data: Seq<u8>,
}

/// An owned image buffer: interleaved pixel bytes plus their dimensions.
pub struct Frame {
    width: u32,
    height: u32,
    channels: u32,
    data: Vec<u8>,
}

/// A frame's byte count is its pixel count times its channel count.
pub open spec fn frame_len_ok(f: FrameView) -> bool {
    f.data.len() == f.width * f.height * f.channels
}

impl View for Frame {
    type V = FrameView;

    closed spec fn view(&self) -> FrameView {
        FrameView {
            width: self.width as nat,
            height: self.height as nat,
            channels: self.channels as nat,
            data: self.data@,
        }
    }
}

impl Frame {
    /// Every frame that exists has a byte count matching its dimensions.
    #[verifier::type_invariant]
    closed spec fn well_formed(&self) -> bool {
        self.data@.len() == self.width as int * self.height as int * self.channels as int
    }

    /// Builds a frame from its dimensions and pixel bytes; `None` when the byte
    /// count does not match `width * height * channels`.
    pub fn new(width: u32, height: u32, channels: u32, data: Vec<u8>) -> (r: Option<Frame>)
        ensures
            r is Some <==> data@.len() == width as int * height as int * channels as int,
            r matches Some(f) ==> frame_len_ok(f@) && f@ == (FrameView {
                width: width as nat,
                height: height as nat,
                channels: channels as nat,
                data: data@,
            }),
    {
        proof {
            assert(width as int * height as int <= u32::MAX as int * u32::MAX as int)
                by (nonlinear_arith);
        }
        let pixels: u64 = width as u64 * height as u64;
        let n: usize = data.len();
        match pixels.checked_mul(channels as u64) {
            Some(total) => {
                if n as u64 == total {
                    Some(Frame { width, height, channels, data })
                } else {
                    None
                }
            },
            None => {
                proof {
                    assert(n as int <= u64::MAX);
                }
                None
            },
        }
    }

    pub fn width(&self) -> (r: u32)
        ensures
            r == self@.width,
    {
        self.width
    }

    pub fn height(&self) -> (r: u32)
        ensures
            r == self@.height,
    {
        self.height
    }

    pub fn channels(&self) -> (r: u32)
        ensures
            r == self@.channels,
    {
        self.channels
    }

    pub fn data(&self) -> (r: &[u8])
        ensures
            r@ == self@.data,
    {
        self.data.as_slice()
    }

    /// Overwrites one byte of the pixel data; `false`, with nothing changed,
    /// when `index` is past the end.
    pub fn set_byte(&mut self, index: usize, value: u8) -> (r: bool)
        ensures
            r == (index < old(self)@.data.len()),
            final(self)@.width == old(self)@.width,
            final(self)@.height == old(self)@.height,
            final(self)@.channels == old(self)@.channels,
            final(self)@.data == if r {
                old(self)@.data.update(index as int, value)
            } else {
                old(self)@.data
            },
    {
        proof {
            use_type_invariant(&*self);
        }
        if index < self.data.len() {
            let mut data = self.data.clone();
            data.set(index, value);
            assert(data@ =~= self.data@.update(index as int, value));
            *self = Frame { width: self.width, height: self.height, channels: self.channels, data };
            true
        } else {
            false
        }
    }

    /// An independent copy: it shares no storage with `self`.
    pub fn deep_copy(&self) -> (r: Frame)
        ensures
            r@ == self@,
            frame_len_ok(r@),
    {
        proof {
            use_type_invariant(self);
        }
        let data = self.data.clone();
        assert(data@ =~= self.data@);
        Frame { width: self.width, height: self.height, channels: self.channels, data }
    }

    /// Whether the frame has the given resolution.
    pub fn has_resolution(&self, width: u32, height: u32) -> (r: bool)
        ensures
            r == (self@.width == width && self@.height == height),
    {
        self.width == width && self.height == height
    }
}

} // verus!
