//! Operations that make new objects from those that are there.

use crate::objects::{next, Face, Objects, Shell, Solid, Stored};
use crate::storage::Handle;
use vstd::prelude::*;

verus! {

/// Update a [`Solid`].
pub trait UpdateSolid {
    /// The shells of the solid, each by its identity and its faces.
    spec fn shells(&self) -> Seq<(u64, Seq<Handle<Face>>)>;

    /// Add shells to the solid: the new solid has the shells of this one,
    /// and then those given.
    fn add_shells(&self, shells: Vec<Handle<Shell>>) -> (solid: Solid)
        ensures
            solid@.shells == self.shells() + shells@.map_values(
                |s: Handle<Shell>| (s.id, s.object.faces@),
            ),
    ;
}

impl UpdateSolid for Solid {
    open spec fn shells(&self) -> Seq<(u64, Seq<Handle<Face>>)> {
        self@.shells
    }

    fn add_shells(&self, shells: Vec<Handle<Shell>>) -> (solid: Solid) {
        let ghost added = shells@.map_values(|s: Handle<Shell>| (s.id, s.object.faces@));
        let mut all: Vec<Handle<Shell>> = Vec::new();
        let mut i: usize = 0;
        while i < self.shells.len()
            invariant
                i <= self.shells.len(),
                all@.map_values(|s: Handle<Shell>| (s.id, s.object.faces@)) == self@.shells.take(
                    i as int,
                ),
            decreases self.shells.len() - i,
        {
            let ghost so_far = all@.map_values(|s: Handle<Shell>| (s.id, s.object.faces@));
            let shell = Handle { id: self.shells[i].id, object: self.shells[i].object.clone() };
            all.push(shell);
            assert(all@.map_values(|s: Handle<Shell>| (s.id, s.object.faces@)) =~= so_far.push(
                (shell.id, shell.object.faces@),
            ));
            assert(self@.shells.take(i + 1) =~= self@.shells.take(i as int).push(self@.shells[i as int]));
            i += 1;
        }
        assert(self@.shells.take(i as int) =~= self@.shells);
        let mut shells = shells;
        all.append(&mut shells);
        let solid = Solid::new(all);
        assert(solid@.shells =~= self@.shells + added);
        solid
    }
}

/// The handles that faces get as they are stored one after the other.
pub open spec fn stored_faces(faces: Seq<Handle<Face>>, side_faces: Seq<Face>) -> Seq<Handle<Face>>
    decreases side_faces.len(),
{
    if side_faces.len() == 0 {
        Seq::empty()
    } else {
        let earlier = stored_faces(faces, side_faces.drop_last());
        earlier.push(next(faces + earlier, side_faces.last()))
    }
}

/// Sweep a [`Face`].
pub trait SweepFace {
    /// Makes the shell of a swept face from the face and the side faces
    /// that sweeping its region has made. The side faces are stored; the
    /// shell has the face itself first and then the side faces, in their
    /// order.
    fn sweep_face(&self, side_faces: Vec<Face>, objects: &mut Objects) -> Shell;
}

impl SweepFace for Handle<Face> {
    fn sweep_face(&self, side_faces: Vec<Face>, objects: &mut Objects) -> (shell: Shell)
        ensures
            shell.faces@ == seq![*self] + stored_faces(old(objects)@.faces, side_faces@),
            final(objects)@ == (Stored {
                faces: old(objects)@.faces + stored_faces(old(objects)@.faces, side_faces@),
                ..old(objects)@
            }),
    {
        let ghost before = objects@;
        let mut faces: Vec<Handle<Face>> = Vec::new();
        faces.push(*self);
        let mut i: usize = 0;
        assert(faces@ =~= seq![*self] + stored_faces(before.faces, side_faces@.take(0)));
        assert(objects@.faces =~= before.faces + stored_faces(before.faces, side_faces@.take(0)));
        while i < side_faces.len()
            invariant
                i <= side_faces.len(),
                faces@ == seq![*self] + stored_faces(before.faces, side_faces@.take(i as int)),
                objects@ == (Stored {
                    faces: before.faces + stored_faces(before.faces, side_faces@.take(i as int)),
                    ..before
                }),
            decreases side_faces.len() - i,
        {
            assert(side_faces@.take(i + 1).drop_last() =~= side_faces@.take(i as int));
            let ghost earlier = stored_faces(before.faces, side_faces@.take(i as int));
            let side_face = objects.faces.insert(side_faces[i]);
            faces.push(side_face);
            assert(faces@ =~= seq![*self] + earlier.push(side_face));
            assert(objects@.faces =~= before.faces + earlier.push(side_face));
            i += 1;
        }
        assert(side_faces@.take(i as int) =~= side_faces@);
        Shell::new(faces)
    }
}

} // verus!
