//! Making a bitmap of the bytes of a picture.

use vstd::prelude::*;

use crate::win32::low_dword;

verus! {

/// Where the making of a bitmap stands.
#[derive(Clone, Copy, PartialEq, Eq, Debug, Structural)]
pub enum LoadStep {
    /// A stream in memory is to be created.
    CreateStream,
    /// So many of the bytes are to be written to it.
    Write { len: u32 },
    /// It is to be set back to its start.
    Rewind,
    /// A bitmap is to be read from it.
    Decode,
    /// The bitmap may be used.
    Loaded,
    /// There is no bitmap.
    Failed,
}

/// What came back from a call.
#[derive(Clone, Copy, PartialEq, Eq, Debug, Structural)]
pub enum LoadReply {
    /// Whether there is a stream.
    Created(bool),
    /// The status of the decoder; zero is success.
    Status(i32),
    /// The call returned, and its result is not looked at.
    Returned,
}

/// The step after a reply, for a picture of `size` bytes. A reply to another call than the
/// pending one changes nothing.
pub open spec fn load_next(step: LoadStep, reply: LoadReply, size: int) -> LoadStep {
    match (step, reply) {
        (LoadStep::CreateStream, LoadReply::Created(ok)) => if ok {
            LoadStep::Write { len: crate::win32::low_dword_of(size) as u32 }
        } else {
            LoadStep::Failed
        },
        (LoadStep::Write { .. }, LoadReply::Returned) => LoadStep::Rewind,
        (LoadStep::Rewind, LoadReply::Returned) => LoadStep::Decode,
        (LoadStep::Decode, LoadReply::Status(status)) => if status == 0 {
            LoadStep::Loaded
        } else {
            LoadStep::Failed
        },
        _ => step,
    }
}

/// Takes the making of a bitmap over one reply. Writing and setting back are not checked: what
/// they leave wrong the decoder finds.
pub fn load_bitmap(step: LoadStep, reply: LoadReply, size: usize) -> (next: LoadStep)
    ensures
        next == load_next(step, reply, size as int),
{
    match (step, reply) {
        (LoadStep::CreateStream, LoadReply::Created(ok)) => {
            if ok {
                LoadStep::Write { len: low_dword(size) }
            } else {
                LoadStep::Failed
            }
        },
        (LoadStep::Write { .. }, LoadReply::Returned) => LoadStep::Rewind,
        (LoadStep::Rewind, LoadReply::Returned) => LoadStep::Decode,
        (LoadStep::Decode, LoadReply::Status(status)) => {
            if status == 0 {
                LoadStep::Loaded
            } else {
                LoadStep::Failed
            }
        },
        _ => step,
    }
}

/// Where the making of a bitmap ends, given the replies to the creation of the stream and to the
/// decoding.
pub open spec fn load_end(created: bool, status: i32, size: int) -> LoadStep {
    let written = load_next(
        load_next(LoadStep::CreateStream, LoadReply::Created(created), size),
        LoadReply::Returned,
        size,
    );
    let rewound = load_next(written, LoadReply::Returned, size);
    load_next(rewound, LoadReply::Status(status), size)
}

/// There is a bitmap exactly where there was a stream and the decoder succeeded.
pub proof fn law_bitmap_needs_stream_and_decoder(created: bool, status: i32, size: int)
    ensures
        load_end(created, status, size) == if created && status == 0 {
            LoadStep::Loaded
        } else {
            LoadStep::Failed
        },
{
}

/// Each call waits for the one before it: the bytes are written to a created stream, all of them
/// up to the 32 bits of the length, the stream is set back after that, and only then decoded.
pub proof fn law_calls_of_a_load_come_in_order(
    size: int,
    created: bool,
    status: i32,
    len: u32,
    reply: LoadReply,
)
    ensures
        load_next(LoadStep::CreateStream, LoadReply::Created(created), size) == if created {
            LoadStep::Write { len: (size % 0x1_0000_0000) as u32 }
        } else {
            LoadStep::Failed
        },
        load_next(LoadStep::Write { len }, LoadReply::Returned, size) == LoadStep::Rewind,
        load_next(LoadStep::Rewind, LoadReply::Returned, size) == LoadStep::Decode,
        load_next(LoadStep::Decode, LoadReply::Status(status), size) == if status == 0 {
            LoadStep::Loaded
        } else {
            LoadStep::Failed
        },
        reply !is Created ==> load_next(LoadStep::CreateStream, reply, size)
            == LoadStep::CreateStream,
        reply !is Returned ==> load_next(LoadStep::Write { len }, reply, size) == (LoadStep::Write {
            len,
        }),
        reply !is Returned ==> load_next(LoadStep::Rewind, reply, size) == LoadStep::Rewind,
        reply !is Status ==> load_next(LoadStep::Decode, reply, size) == LoadStep::Decode,
        load_next(LoadStep::Loaded, reply, size) == LoadStep::Loaded,
        load_next(LoadStep::Failed, reply, size) == LoadStep::Failed,
{
}

} // verus!
