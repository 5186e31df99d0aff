//! What the plugin concludes from the buffers that the host reports.
use vstd::prelude::*;
use vstd::string::*;

verus! {

/// What the host reports of one buffer: its handle, whether the handle is
/// still valid, the name of the buffer (empty for a buffer without a file),
/// its `buftype` (empty for a file buffer), and whether it has unsaved
/// changes.
#[derive(Debug)]
pub struct BufferInfo {
    pub handle: i32,
    pub valid: bool,
    pub name: String,
    pub buftype: String,
    pub modified: bool,
}

impl BufferInfo {
    /// A valid buffer of the ordinary kind.
    pub open spec fn is_file_buffer(self) -> bool {
        self.valid && self.buftype@.len() == 0
    }

    /// A buffer without a file behind it.
    pub open spec fn is_unnamed(self) -> bool {
        self.name@.len() == 0
    }
}

/// The number of file buffers among `buffers`.
pub open spec fn file_buffer_count(buffers: Seq<BufferInfo>) -> nat
    decreases buffers.len(),
{
    if buffers.len() == 0 {
        0
    } else {
        file_buffer_count(buffers.drop_last()) + if buffers.last().is_file_buffer() {
            1nat
        } else {
            0nat
        }
    }
}

/// Whether the dashboard opens by itself when the user interface is ready:
/// the host was started without file arguments, and its only buffer has no
/// name.
pub open spec fn opens_on_start(argc: int, buffers: Seq<BufferInfo>) -> bool {
    argc <= 0 && buffers.len() == 1 && buffers[0].is_unnamed()
}

/// Decides whether the dashboard opens by itself. `argc` is the number of
/// file arguments of the host, `buffers` are all its buffers.
pub fn should_open_dashboard(argc: i64, buffers: &Vec<BufferInfo>) -> (r: bool)
    ensures
        r == opens_on_start(argc as int, buffers@),
{
    if argc > 0 {
        return false;
    }
    if buffers.len() == 1 {
        return buffers[0].name.as_str().is_empty();
    }
    false
}

/// Counts the valid buffers of the ordinary kind.
pub fn count_file_buffers(buffers: &Vec<BufferInfo>) -> (r: usize)
    ensures
        r == file_buffer_count(buffers@),
{
    let mut count: usize = 0;
    let mut i: usize = 0;
    proof {
        assert(buffers@.take(0) =~= Seq::<BufferInfo>::empty());
    }
    while i < buffers.len()
        invariant
            i <= buffers.len(),
            count <= i,
            count == file_buffer_count(buffers@.take(i as int)),
        decreases buffers.len() - i,
    {
        proof {
            assert(buffers@.take(i + 1).drop_last() =~= buffers@.take(i as int));
        }
        if buffers[i].valid && buffers[i].buftype.as_str().is_empty() {
            count = count + 1;
        }
        i = i + 1;
    }
    proof {
        assert(buffers@.take(buffers.len() as int) =~= buffers@);
    }
    count
}

} // verus!
