//! Debug markers drawn as line segments.
//!
//! A [`DebugLines`] holds markers and the vertex buffer made from them: each
//! marker is a cross of three axis-parallel segments through its centre, six
//! vertices in all. Markers are only ever added, so a [`MarkerHandle`] stays
//! good for the lifetime of the set that gave it out. Whatever changes the
//! vertices marks the buffer dirty, and [`DebugLines::render`] uploads a
//! dirty buffer before it draws.

use vstd::prelude::*;
use crate::render_gl::context::{Command, CommandModel, Context, ContextModel};
use crate::units::{div_toward_zero, trunc_div, Vec3, WORLD_LIMIT};

verus! {

/// The number of vertices that one marker takes.
pub const MARKER_VERTICES: usize = 6;

/// A cross centred at `center` whose arms span `size` along each axis.
#[derive(Clone, Copy, Debug, PartialEq, Eq, Structural)]
pub struct Marker {
    pub center: Vec3,
    pub size: i64,
}

impl Marker {
    /// The centre lies in the world and the size is no larger than the
    /// world, so that every vertex is a coordinate the machine can hold.
    pub open spec fn fits(self) -> bool {
        &&& self.center@.within(WORLD_LIMIT as int)
        &&& -WORLD_LIMIT <= self.size <= WORLD_LIMIT
    }

    /// Vertex `k` of the marker: the ends of the arm along `x`, then `y`,
    /// then `z`, each half the size from the centre.
    pub open spec fn vertex(self, k: int) -> Vec3 {
        let h = trunc_div(self.size as int, 2);
        let c = self.center;
        if k == 0 {
            Vec3 { x: (c.x - h) as i64, y: c.y, z: c.z }
        } else if k == 1 {
            Vec3 { x: (c.x + h) as i64, y: c.y, z: c.z }
        } else if k == 2 {
            Vec3 { x: c.x, y: (c.y - h) as i64, z: c.z }
        } else if k == 3 {
            Vec3 { x: c.x, y: (c.y + h) as i64, z: c.z }
        } else if k == 4 {
            Vec3 { x: c.x, y: c.y, z: (c.z - h) as i64 }
        } else {
            Vec3 { x: c.x, y: c.y, z: (c.z + h) as i64 }
        }
    }

    /// Whether the marker fits.
    pub fn check_fits(&self) -> (b: bool)
        ensures
            b == self.fits(),
    {
        self.center.in_world() && -WORLD_LIMIT <= self.size && self.size <= WORLD_LIMIT
    }

    fn vertex_at(&self, k: usize) -> (v: Vec3)
        requires
            self.fits(),
            k < 6,
        ensures
            v == self.vertex(k as int),
    {
        let h = div_toward_zero(self.size, 2);
        let c = self.center;
        if k == 0 {
            Vec3 { x: c.x - h, y: c.y, z: c.z }
        } else if k == 1 {
            Vec3 { x: c.x + h, y: c.y, z: c.z }
        } else if k == 2 {
            Vec3 { x: c.x, y: c.y - h, z: c.z }
        } else if k == 3 {
            Vec3 { x: c.x, y: c.y + h, z: c.z }
        } else if k == 4 {
            Vec3 { x: c.x, y: c.y, z: c.z - h }
        } else {
            Vec3 { x: c.x, y: c.y, z: c.z + h }
        }
    }
}

/// The vertex buffer for a sequence of markers: six vertices for each, in
/// the order of the markers.
pub open spec fn geometry(markers: Seq<Marker>) -> Seq<Vec3> {
    Seq::new(6 * markers.len(), |i: int| markers[i / 6].vertex(i % 6))
}

/// The mathematical state of a [`DebugLines`].
pub struct DebugLinesModel {
    /// The markers, in the order in which they were added.
    pub markers: Seq<Marker>,
    /// Whether the vertices differ from what was uploaded last.
    pub dirty: bool,
    /// How many uploads there were.
    pub uploads: u64,
}

impl DebugLinesModel {
    /// No marker, nothing to upload, no upload so far.
    pub open spec fn empty() -> DebugLinesModel {
        DebugLinesModel { markers: Seq::empty(), dirty: false, uploads: 0 }
    }

    /// `index` names a marker of this set.
    pub open spec fn has_marker(self, index: int) -> bool {
        0 <= index < self.markers.len()
    }

    /// Where the block of marker `index` starts in the vertex buffer.
    pub open spec fn offset_of(self, index: int) -> int {
        6 * index
    }

    /// One more marker at the end; the buffer is dirty.
    pub open spec fn with_marker(self, marker: Marker) -> DebugLinesModel {
        DebugLinesModel { markers: self.markers.push(marker), dirty: true, ..self }
    }

    /// Marker `index`, if there is one, stands at `center` and the buffer is
    /// dirty; otherwise nothing changes.
    pub open spec fn with_center(self, index: int, center: Vec3) -> DebugLinesModel {
        if self.has_marker(index) {
            DebugLinesModel {
                markers: self.markers.update(
                    index,
                    Marker { center, size: self.markers[index].size },
                ),
                dirty: true,
                ..self
            }
        } else {
            self
        }
    }

    /// After a render: a dirty buffer was uploaded and is clean, a clean one
    /// was left alone. The count of uploads stops at the largest number.
    pub open spec fn rendered(self) -> DebugLinesModel {
        if self.dirty {
            DebugLinesModel {
                dirty: false,
                uploads: if self.uploads < u64::MAX {
                    (self.uploads + 1) as u64
                } else {
                    self.uploads
                },
                ..self
            }
        } else {
            self
        }
    }

    /// What a render queues: the upload of a dirty buffer, then the draw of
    /// all the vertices.
    pub open spec fn render_into(self, c: ContextModel) -> ContextModel {
        let draw = CommandModel::DrawLines { count: (6 * self.markers.len()) as usize };
        if self.dirty {
            c.queue(CommandModel::UploadLines { vertices: geometry(self.markers) }).queue(draw)
        } else {
            c.queue(draw)
        }
    }
}

/// The name of one marker of a [`DebugLines`].
#[derive(Clone, Copy, Debug, PartialEq, Eq)]
pub struct MarkerHandle {
    index: usize,
}

impl View for MarkerHandle {
    type V = int;

    closed spec fn view(&self) -> int {
        self.index as int
    }
}

/// A growing set of debug markers and their vertex buffer.
#[derive(Debug)]
pub struct DebugLines {
    markers: Vec<Marker>,
    vertices: Vec<Vec3>,
    dirty: bool,
    uploads: u64,
}

impl View for DebugLines {
    type V = DebugLinesModel;

    closed spec fn view(&self) -> DebugLinesModel {
        DebugLinesModel { markers: self.markers@, dirty: self.dirty, uploads: self.uploads }
    }
}

impl DebugLines {
    /// The vertex buffer is the geometry of the markers, and every marker
    /// fits. This holds of every set.
    #[verifier::type_invariant]
    pub closed spec fn in_step(self) -> bool {
        &&& self.vertices@ =~= geometry(self.markers@)
        &&& forall|i: int| 0 <= i < self.markers@.len() ==> (#[trigger] self.markers@[i]).fits()
    }

    /// An empty set: no marker, nothing to upload.
    pub fn new() -> (lines: DebugLines)
        ensures
            lines@ == DebugLinesModel::empty(),
    {
        let lines = DebugLines {
            markers: Vec::new(),
            vertices: Vec::new(),
            dirty: false,
            uploads: 0,
        };
        assert(lines.markers@ =~= Seq::<Marker>::empty());
        lines
    }

    /// Moves the state out and leaves an empty set behind.
    fn take(&mut self) -> (taken: DebugLines)
        ensures
            taken == *old(self),
            final(self)@ == DebugLinesModel::empty(),
    {
        let mut taken = DebugLines::new();
        core::mem::swap(self, &mut taken);
        taken
    }

    /// Adds a marker centred at `position` whose arms span `size`, and hands
    /// out its name. The buffer is dirty afterwards.
    pub fn marker(&mut self, position: Vec3, size: i64) -> (handle: MarkerHandle)
        requires
            (Marker { center: position, size }).fits(),
        ensures
            final(self)@ == old(self)@.with_marker(Marker { center: position, size }),
            handle@ == old(self)@.markers.len(),
            final(self)@.has_marker(handle@),
    {
        proof {
            use_type_invariant(&*self);
        }
        let m = Marker { center: position, size };
        let DebugLines { mut markers, mut vertices, dirty: _, uploads } = self.take();
        let index = markers.len();
        markers.push(m);
        vertices.push(m.vertex_at(0));
        vertices.push(m.vertex_at(1));
        vertices.push(m.vertex_at(2));
        vertices.push(m.vertex_at(3));
        vertices.push(m.vertex_at(4));
        vertices.push(m.vertex_at(5));
        assert(vertices@ =~= geometry(markers@));
        *self = DebugLines { markers, vertices, dirty: true, uploads };
        MarkerHandle { index }
    }

    /// The number of markers.
    pub fn marker_count(&self) -> (n: usize)
        ensures
            n == self@.markers.len(),
    {
        self.markers.len()
    }

    /// The marker that `handle` names, if it names one of this set.
    pub fn get(&self, handle: MarkerHandle) -> (m: Option<Marker>)
        ensures
            m == (if self@.has_marker(handle@) {
                Some(self@.markers[handle@])
            } else {
                None
            }),
    {
        if handle.index < self.markers.len() {
            Some(self.markers[handle.index])
        } else {
            None
        }
    }

    /// Whether the vertices differ from what was uploaded last.
    pub fn is_dirty(&self) -> (b: bool)
        ensures
            b == self@.dirty,
    {
        self.dirty
    }

    /// How many uploads there were.
    pub fn upload_count(&self) -> (n: u64)
        ensures
            n == self@.uploads,
    {
        self.uploads
    }

    /// The vertex buffer: the geometry of the markers.
    pub fn vertices(&self) -> (v: &Vec<Vec3>)
        ensures
            v@ == geometry(self@.markers),
    {
        proof {
            use_type_invariant(self);
        }
        &self.vertices
    }

    /// Uploads the vertices if they are dirty, then draws them all as line
    /// segments. A clean buffer is drawn without an upload.
    pub fn render(&mut self, ctx: &mut Context)
        ensures
            final(self)@ == old(self)@.rendered(),
            final(ctx)@ == old(self)@.render_into(old(ctx)@),
            final(ctx)@.wf(),
    {
        proof {
            use_type_invariant(&*self);
            use_type_invariant(&*ctx);
        }
        if self.dirty {
            let vertices = self.vertices.clone();
            assert(vertices@ =~= self.vertices@);
            ctx.queue(Command::UploadLines { vertices });
            let DebugLines { markers, vertices, dirty: _, uploads } = self.take();
            let counted = if uploads < u64::MAX {
                uploads + 1
            } else {
                uploads
            };
            *self = DebugLines { markers, vertices, dirty: false, uploads: counted };
        }
        ctx.queue(Command::DrawLines { count: self.vertices.len() });
    }
}

impl MarkerHandle {
    /// The position of the marker among the markers of its set.
    pub fn index(&self) -> (i: usize)
        ensures
            i == self@,
    {
        self.index
    }

    /// Moves the marker that this handle names in `lines` to `new_position`
    /// and marks the buffer dirty. No other marker changes; a handle that
    /// names no marker of `lines` changes nothing.
    pub fn update_position(&self, lines: &mut DebugLines, new_position: Vec3)
        requires
            new_position@.within(WORLD_LIMIT as int),
        ensures
            final(lines)@ == old(lines)@.with_center(self@, new_position),
    {
        proof {
            use_type_invariant(&*lines);
        }
        let i = self.index;
        if i < lines.markers.len() {
            let m = Marker { center: new_position, size: lines.markers[i].size };
            let DebugLines { mut markers, mut vertices, dirty: _, uploads } = lines.take();
            let ghost before = markers@;
            let n = vertices.len();
            assert(6 * i + 5 < n);
            markers.set(i, m);
            let base = 6 * i;
            vertices.set(base, m.vertex_at(0));
            vertices.set(base + 1, m.vertex_at(1));
            vertices.set(base + 2, m.vertex_at(2));
            vertices.set(base + 3, m.vertex_at(3));
            vertices.set(base + 4, m.vertex_at(4));
            vertices.set(base + 5, m.vertex_at(5));
            assert(vertices@ =~= geometry(markers@)) by {
                assert forall|j: int| 0 <= j < vertices@.len() implies vertices@[j] == geometry(
                    markers@,
                )[j] by {
                    if j / 6 != i as int {
                        assert(markers@[j / 6] == before[j / 6]);
                    }
                }
            }
            *lines = DebugLines { markers, vertices, dirty: true, uploads };
        }
    }
}

/// Moving one marker, once or twice, changes the six vertices of that
/// marker and no other vertex; the second position is the one that stays.
pub proof fn lemma_move_changes_one_block(
    m: DebugLinesModel,
    index: int,
    first: Vec3,
    second: Vec3,
)
    requires
        m.has_marker(index),
    ensures
        m.with_center(index, first).with_center(index, second) == m.with_center(index, second),
        m.with_center(index, second).dirty,
        m.with_center(index, second).uploads == m.uploads,
        m.with_center(index, second).markers.len() == m.markers.len(),
        forall|i: int|
            0 <= i < m.markers.len() && i != index ==> m.with_center(index, second).markers[i]
                == m.markers[i],
        geometry(m.with_center(index, second).markers).len() == geometry(m.markers).len(),
        forall|j: int|
            0 <= j < 6 * m.markers.len() && !(m.offset_of(index) <= j < m.offset_of(index) + 6)
                ==> geometry(m.with_center(index, second).markers)[j] == geometry(m.markers)[j],
        forall|k: int|
            0 <= k < 6 ==> geometry(m.with_center(index, second).markers)[m.offset_of(index) + k]
                == (Marker { center: second, size: m.markers[index].size }).vertex(k),
{
    let once = m.with_center(index, first);
    let after = m.with_center(index, second);
    assert(once.with_center(index, second).markers =~= after.markers);
    assert forall|j: int|
        0 <= j < 6 * m.markers.len() && !(m.offset_of(index) <= j < m.offset_of(index)
            + 6) implies geometry(after.markers)[j] == geometry(m.markers)[j] by {
        assert(j / 6 != index);
    }
    assert forall|k: int| 0 <= k < 6 implies geometry(after.markers)[m.offset_of(index) + k] == (
    Marker { center: second, size: m.markers[index].size }).vertex(k) by {
        assert((6 * index + k) / 6 == index);
        assert((6 * index + k) % 6 == k);
    }
}

/// A marker that exists keeps its handle and its place: neither a new
/// marker, nor the move of any marker, nor a render takes it away.
pub proof fn lemma_handles_stay_good(
    m: DebugLinesModel,
    index: int,
    marker: Marker,
    other: int,
    center: Vec3,
)
    requires
        m.has_marker(index),
    ensures
        m.with_marker(marker).has_marker(index),
        m.with_marker(marker).markers[index] == m.markers[index],
        m.with_center(other, center).has_marker(index),
        m.rendered().has_marker(index),
        m.rendered().markers == m.markers,
{
}

/// After a render the buffer is clean, and the render of a clean buffer
/// uploads nothing: it counts no upload and queues the draw alone.
pub proof fn lemma_clean_render_uploads_nothing(m: DebugLinesModel, c: ContextModel)
    ensures
        !m.rendered().dirty,
        m.rendered().rendered() == m.rendered(),
        !m.dirty ==> m.rendered() == m,
        !m.dirty ==> m.render_into(c) == c.queue(
            CommandModel::DrawLines { count: (6 * m.markers.len()) as usize },
        ),
{
}

} // verus!
