use vstd::prelude::*;

verus! {

/// One frame of a streaming connection.
#[derive(Debug, PartialEq, Eq)]
pub enum Frame {
    Text(String),
    Binary(Vec<u8>),
    Ping(Vec<u8>),
    Pong(Vec<u8>),
    Close,
}

/// The mathematical value of a frame.
pub enum FrameView {
    Text(Seq<char>),
    Binary(Seq<u8>),
    Ping(Seq<u8>),
    Pong(Seq<u8>),
    Close,
}

impl View for Frame {
    type V = FrameView;

    open spec fn view(&self) -> FrameView {
        match self {
            Frame::Text(s) => FrameView::Text(s@),
            Frame::Binary(b) => FrameView::Binary(b@),
            Frame::Ping(b) => FrameView::Ping(b@),
            Frame::Pong(b) => FrameView::Pong(b@),
            Frame::Close => FrameView::Close,
        }
    }
}

/// The value of a frame that may be missing.
pub open spec fn opt_view(o: Option<Frame>) -> Option<FrameView> {
    match o {
        Some(f) => Some(f@),
        None => None,
    }
}

fn copy_bytes(b: &Vec<u8>) -> (r: Vec<u8>)
    ensures
        r@ == b@,
{
    let mut r: Vec<u8> = Vec::with_capacity(b.len());
    let mut i: usize = 0;
    while i < b.len()
        invariant
            i <= b@.len(),
            r@ == b@.subrange(0, i as int),
        decreases b@.len() - i,
    {
        r.push(b[i]);
        i = i + 1;
    }
    assert(r@ =~= b@);
    r
}

impl Frame {
    /// A copy of the frame with the same kind and payload.
    pub fn copy(&self) -> (r: Frame)
        ensures
            r@ == self@,
    {
        match self {
            Frame::Text(s) => Frame::Text(s.clone()),
            Frame::Binary(b) => Frame::Binary(copy_bytes(b)),
            Frame::Ping(b) => Frame::Ping(copy_bytes(b)),
            Frame::Pong(b) => Frame::Pong(copy_bytes(b)),
            Frame::Close => Frame::Close,
        }
    }
}

impl Clone for Frame {
    fn clone(&self) -> (r: Frame)
        ensures
            r@ == self@,
    {
        self.copy()
    }
}

} // verus!
