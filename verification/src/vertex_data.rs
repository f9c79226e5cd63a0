//! The two stores of a load: the attributes as the file declares them, and
//! the vertices that its faces expand to.

use vstd::prelude::*;

use crate::error::{Attribute, ObjError};

verus! {

/// The declared attributes of a file, as mathematical sequences.
///
/// Each array holds one slot per declaration in the whole file, so its length
/// never changes. The slots before the cursor hold the declarations read so
/// far, in file order; the others hold zero.
pub struct Declared {
    /// Positions, three scalars each.
    pub vp: Seq<u32>,
    /// Texture coordinates, two scalars each.
    pub vt: Seq<u32>,
    /// Normals, three scalars each.
    pub vn: Seq<u32>,
    /// The number of positions written.
    pub vp_next: nat,
    /// The number of texture coordinates written.
    pub vt_next: nat,
    /// The number of normals written.
    pub vn_next: nat,
}

/// `data` with `values` laid over it from index `at` on.
pub open spec fn overlay(data: Seq<u32>, at: nat, values: Seq<u32>) -> Seq<u32> {
    Seq::new(
        data.len(),
        |i: int|
            if at <= i < at + values.len() {
                values[i - at]
            } else {
                data[i]
            },
    )
}

impl Declared {
    /// The store of a file with the given numbers of declarations, before
    /// any of them is read.
    pub open spec fn zeroed(vp_count: nat, vt_count: nat, vn_count: nat) -> Declared {
        Declared {
            vp: Seq::new(3 * vp_count, |i: int| 0u32),
            vt: Seq::new(2 * vt_count, |i: int| 0u32),
            vn: Seq::new(3 * vn_count, |i: int| 0u32),
            vp_next: 0,
            vt_next: 0,
            vn_next: 0,
        }
    }

    /// The number of declarations of `attribute` that the store has room for.
    pub open spec fn count(self, attribute: Attribute) -> nat {
        match attribute {
            Attribute::Position => self.vp.len() / 3,
            Attribute::TexCoord => self.vt.len() / 2,
            Attribute::Normal => self.vn.len() / 3,
        }
    }

    /// The number of declarations of `attribute` written so far.
    pub open spec fn written(self, attribute: Attribute) -> nat {
        match attribute {
            Attribute::Position => self.vp_next,
            Attribute::TexCoord => self.vt_next,
            Attribute::Normal => self.vn_next,
        }
    }

    /// The scalars of all declarations of `attribute`, slot after slot.
    pub open spec fn scalars(self, attribute: Attribute) -> Seq<u32> {
        match attribute {
            Attribute::Position => self.vp,
            Attribute::TexCoord => self.vt,
            Attribute::Normal => self.vn,
        }
    }

    /// `index`, counted from 1 as face lines do, names a slot of `attribute`.
    pub open spec fn holds(self, attribute: Attribute, index: u32) -> bool {
        1 <= index <= self.count(attribute)
    }

    /// The scalars in the slot of `attribute` that `index` names, counted
    /// from 1.
    pub open spec fn declaration(self, attribute: Attribute, index: u32) -> Seq<u32> {
        self.scalars(attribute).subrange(
            attribute.arity() * (index - 1),
            attribute.arity() * index,
        )
    }

    /// The arrays hold whole declarations and no cursor is past the end.
    pub open spec fn wf(self) -> bool {
        &&& self.vp.len() == 3 * self.count(Attribute::Position)
        &&& self.vt.len() == 2 * self.count(Attribute::TexCoord)
        &&& self.vn.len() == 3 * self.count(Attribute::Normal)
        &&& self.vp_next <= self.count(Attribute::Position)
        &&& self.vt_next <= self.count(Attribute::TexCoord)
        &&& self.vn_next <= self.count(Attribute::Normal)
    }

    /// The store after one more declaration of `attribute`, with scalars
    /// `values`, is written at the cursor.
    pub open spec fn write(self, attribute: Attribute, values: Seq<u32>) -> Declared {
        match attribute {
            Attribute::Position => Declared {
                vp: overlay(self.vp, 3 * self.vp_next, values),
                vp_next: self.vp_next + 1,
                ..self
            },
            Attribute::TexCoord => Declared {
                vt: overlay(self.vt, 2 * self.vt_next, values),
                vt_next: self.vt_next + 1,
                ..self
            },
            Attribute::Normal => Declared {
                vn: overlay(self.vn, 3 * self.vn_next, values),
                vn_next: self.vn_next + 1,
                ..self
            },
        }
    }
}

/// Every field of a declaration was read as a number.
pub open spec fn all_read(fields: Seq<Option<u32>>) -> bool {
    forall|k: int| 0 <= k < fields.len() ==> (#[trigger] fields[k]) is Some
}

/// The scalars of fields that were all read.
pub open spec fn scalars_of(fields: Seq<Option<u32>>) -> Seq<u32> {
    Seq::new(fields.len(), |k: int| fields[k].unwrap())
}

/// What writing the fields of one declaration does to the store: the store
/// with the declaration added when there are as many fields as the attribute
/// has scalars and each was read, `MalformedAttributeLine` otherwise.
pub open spec fn write_fields(
    store: Declared,
    attribute: Attribute,
    fields: Seq<Option<u32>>,
    line: usize,
) -> Result<Declared, ObjError> {
    if fields.len() == attribute.arity() && all_read(fields) {
        Ok(store.write(attribute, scalars_of(fields)))
    } else {
        Err(ObjError::MalformedAttributeLine { line })
    }
}

/// The attributes that a file declares, in file order.
pub struct UnsortedVertexData {
    vp: Vec<u32>,
    vt: Vec<u32>,
    vn: Vec<u32>,
    vp_next: usize,
    vt_next: usize,
    vn_next: usize,
}

/// A vector of `per * count` zeros.
fn zeros(per: usize, count: usize) -> (data: Vec<u32>)
    ensures
        data@ == Seq::new((per * count) as nat, |i: int| 0u32),
{
    let mut data: Vec<u32> = Vec::new();
    let mut done: usize = 0;
    while done < count
        invariant
            done <= count,
            data@ == Seq::new((per * done) as nat, |i: int| 0u32),
        decreases count - done,
    {
        let mut k: usize = 0;
        while k < per
            invariant
                done < count,
                k <= per,
                data@ == Seq::new((per * done + k) as nat, |i: int| 0u32),
            decreases per - k,
        {
            data.push(0);
            k += 1;
            assert(data@ =~= Seq::new((per * done + k) as nat, |i: int| 0u32));
        }
        done += 1;
        assert(per * done == per * (done - 1) + per) by (nonlinear_arith);
    }
    data
}

/// Tells whether every field was read as a number.
pub fn all_present(fields: &Vec<Option<u32>>) -> (present: bool)
    ensures
        present == all_read(fields@),
{
    let mut k: usize = 0;
    while k < fields.len()
        invariant
            k <= fields.len(),
            forall|j: int| 0 <= j < k ==> (#[trigger] fields@[j]) is Some,
        decreases fields.len() - k,
    {
        if fields[k].is_none() {
            return false;
        }
        k += 1;
    }
    true
}

impl View for UnsortedVertexData {
    type V = Declared;

    closed spec fn view(&self) -> Declared {
        Declared {
            vp: self.vp@,
            vt: self.vt@,
            vn: self.vn@,
            vp_next: self.vp_next as nat,
            vt_next: self.vt_next as nat,
            vn_next: self.vn_next as nat,
        }
    }
}

impl UnsortedVertexData {
    /// Makes the store of a file with the given numbers of declarations. All
    /// slots hold zero and nothing is written yet.
    pub fn new(vp_count: usize, vt_count: usize, vn_count: usize) -> (store: UnsortedVertexData)
        ensures
            store@ == Declared::zeroed(vp_count as nat, vt_count as nat, vn_count as nat),
            store@.wf(),
            store@.count(Attribute::Position) == vp_count,
            store@.count(Attribute::TexCoord) == vt_count,
            store@.count(Attribute::Normal) == vn_count,
    {
        UnsortedVertexData {
            vp: zeros(3, vp_count),
            vt: zeros(2, vt_count),
            vn: zeros(3, vn_count),
            vp_next: 0,
            vt_next: 0,
            vn_next: 0,
        }
    }

    /// The number of declarations of `attribute` in the file.
    pub fn count(&self, attribute: Attribute) -> (count: usize)
        ensures
            count == self@.count(attribute),
    {
        match attribute {
            Attribute::Position => self.vp.len() / 3,
            Attribute::TexCoord => self.vt.len() / 2,
            Attribute::Normal => self.vn.len() / 3,
        }
    }

    /// The number of declarations of `attribute` written so far.
    pub fn written(&self, attribute: Attribute) -> (written: usize)
        ensures
            written == self@.written(attribute),
    {
        match attribute {
            Attribute::Position => self.vp_next,
            Attribute::TexCoord => self.vt_next,
            Attribute::Normal => self.vn_next,
        }
    }

    /// Writes the fields of one declaration of `attribute`, found on line
    /// `line`, into the next free slot. The store is left as it was when a
    /// field is missing or was not read as a number.
    pub fn write(&mut self, attribute: Attribute, fields: &Vec<Option<u32>>, line: usize) -> (done:
        Result<(), ObjError>)
        requires
            old(self)@.wf(),
            old(self)@.written(attribute) < old(self)@.count(attribute),
        ensures
            final(self)@.wf(),
            match write_fields(old(self)@, attribute, fields@, line) {
                Ok(store) => done == Ok::<(), ObjError>(()) && final(self)@ == store,
                Err(e) => done == Err::<(), ObjError>(e) && final(self)@ == old(self)@,
            },
    {
        if fields.len() != attribute.width() || !all_present(fields) {
            return Err(ObjError::MalformedAttributeLine { line });
        }
        let ghost before = self@;
        let ghost values = scalars_of(fields@);
        match attribute {
            Attribute::Position => {
                assert(3 * self.vp_next + 2 < self.vp.len());
                let at = 3 * self.vp_next;
                self.vp.set(at, fields[0].unwrap());
                self.vp.set(at + 1, fields[1].unwrap());
                self.vp.set(at + 2, fields[2].unwrap());
                self.vp_next = self.vp_next + 1;
                assert(self.vp@ =~= overlay(before.vp, 3 * before.vp_next, values));
            },
            Attribute::TexCoord => {
                assert(2 * self.vt_next + 1 < self.vt.len());
                let at = 2 * self.vt_next;
                self.vt.set(at, fields[0].unwrap());
                self.vt.set(at + 1, fields[1].unwrap());
                self.vt_next = self.vt_next + 1;
                assert(self.vt@ =~= overlay(before.vt, 2 * before.vt_next, values));
            },
            Attribute::Normal => {
                assert(3 * self.vn_next + 2 < self.vn.len());
                let at = 3 * self.vn_next;
                self.vn.set(at, fields[0].unwrap());
                self.vn.set(at + 1, fields[1].unwrap());
                self.vn.set(at + 2, fields[2].unwrap());
                self.vn_next = self.vn_next + 1;
                assert(self.vn@ =~= overlay(before.vn, 3 * before.vn_next, values));
            },
        }
        Ok(())
    }

    /// Tells whether `index`, counted from 1, names a slot of `attribute`.
    pub fn holds(&self, attribute: Attribute, index: u32) -> (held: bool)
        ensures
            held == self@.holds(attribute, index),
    {
        index >= 1 && ((index - 1) as usize) < self.count(attribute)
    }

    /// Appends to `out` the scalars in the slot of `attribute` that `index`
    /// names, counted from 1.
    pub fn copy_into(&self, attribute: Attribute, index: u32, out: &mut Vec<u32>)
        requires
            self@.wf(),
            self@.holds(attribute, index),
        ensures
            final(out)@ == old(out)@ + self@.declaration(attribute, index),
    {
        let slot = (index - 1) as usize;
        let ghost wanted = self@.declaration(attribute, index);
        match attribute {
            Attribute::Position => {
                assert(3 * slot + 2 < self.vp.len());
                out.push(self.vp[3 * slot]);
                out.push(self.vp[3 * slot + 1]);
                out.push(self.vp[3 * slot + 2]);
                assert(wanted =~= seq![self.vp@[3 * slot], self.vp@[3 * slot + 1], self.vp@[3 * slot + 2]]);
            },
            Attribute::TexCoord => {
                assert(2 * slot + 1 < self.vt.len());
                out.push(self.vt[2 * slot]);
                out.push(self.vt[2 * slot + 1]);
                assert(wanted =~= seq![self.vt@[2 * slot], self.vt@[2 * slot + 1]]);
            },
            Attribute::Normal => {
                assert(3 * slot + 2 < self.vn.len());
                out.push(self.vn[3 * slot]);
                out.push(self.vn[3 * slot + 1]);
                out.push(self.vn[3 * slot + 2]);
                assert(wanted =~= seq![self.vn@[3 * slot], self.vn@[3 * slot + 1], self.vn@[3 * slot + 2]]);
            },
        }
        assert(out@ =~= old(out)@ + wanted);
    }
}

/// The vertices that faces expand to, as mathematical sequences: one
/// position and one normal for every vertex, and one texture coordinate for
/// every vertex of a face that names texture coordinates.
pub struct Vertices {
    /// Positions, three scalars for each vertex.
    pub points: Seq<u32>,
    /// Texture coordinates, two scalars each.
    pub tex_coords: Seq<u32>,
    /// Normals, three scalars for each vertex.
    pub normals: Seq<u32>,
}

impl Vertices {
    /// No vertex at all.
    pub open spec fn empty() -> Vertices {
        Vertices { points: Seq::empty(), tex_coords: Seq::empty(), normals: Seq::empty() }
    }

    /// The number of vertices.
    pub open spec fn point_count(self) -> nat {
        self.points.len() / 3
    }

    /// The arrays describe whole triangles: every vertex has a position and
    /// a normal, and three vertices at a time have texture coordinates or have
    /// none.
    pub open spec fn wf(self) -> bool {
        &&& self.points.len() % 9 == 0
        &&& self.normals.len() == self.points.len()
        &&& self.tex_coords.len() % 6 == 0
        &&& 3 * self.tex_coords.len() <= 2 * self.points.len()
    }
}

/// The vertices that the faces read so far expand to, in face order.
pub struct SortedVertexData {
    pub points: Vec<u32>,
    pub tex_coords: Vec<u32>,
    pub normals: Vec<u32>,
}

impl View for SortedVertexData {
    type V = Vertices;

    open spec fn view(&self) -> Vertices {
        Vertices { points: self.points@, tex_coords: self.tex_coords@, normals: self.normals@ }
    }
}

impl SortedVertexData {
    /// Makes the empty store.
    pub fn new() -> (sorted: SortedVertexData)
        ensures
            sorted@ == Vertices::empty(),
    {
        SortedVertexData { points: Vec::new(), tex_coords: Vec::new(), normals: Vec::new() }
    }
}

} // verus!
