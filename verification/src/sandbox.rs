use vstd::prelude::*;

verus! {

/// `hit` is the index of the first body that `near` accepts, or `None` when
/// it accepts none of them.
pub open spec fn is_first_near<B, N: Fn(&B) -> bool>(bodies: Seq<B>, near: N, hit: Option<usize>) -> bool {
    match hit {
        Some(i) => {
            &&& i < bodies.len()
            &&& near.ensures((&bodies[i as int],), true)
            &&& forall|j: int| 0 <= j < i ==> near.ensures((&#[trigger] bodies[j],), false)
        },
        None => forall|j: int| 0 <= j < bodies.len() ==> near.ensures((&#[trigger] bodies[j],), false),
    }
}

/// Index of the first body that `near` accepts.
pub fn first_near<B, N: Fn(&B) -> bool>(bodies: &Vec<B>, near: &N) -> (hit: Option<usize>)
    requires
        forall|b: &B| (*near).requires((b,)),
    ensures
        is_first_near(bodies@, *near, hit),
{
    let mut i: usize = 0;
    while i < bodies.len()
        invariant
            i <= bodies@.len(),
            forall|b: &B| (*near).requires((b,)),
            forall|j: int| 0 <= j < i ==> (*near).ensures((&#[trigger] bodies@[j],), false),
        decreases bodies@.len() - i,
    {
        if near(&bodies[i]) {
            return Some(i);
        }
        i = i + 1;
    }
    None
}

/// What the pointer did during one frame, as the gravity sandbox sees it.
#[derive(Copy, Clone, PartialEq, Eq, Debug, Structural)]
pub struct PointerFrame {
    /// The sandbox preset is selected and the control panel does not hold
    /// the pointer.
    pub active: bool,
    /// The left button went down this frame.
    pub left_pressed: bool,
    /// The right button went down this frame.
    pub right_pressed: bool,
    /// The left button is held.
    pub left_down: bool,
    /// The body-placing mouse tool is selected.
    pub placing: bool,
}

/// What a frame did to the bodies.
#[derive(Copy, Clone, PartialEq, Eq, Debug, Structural)]
pub struct PointerOutcome {
    /// A left press caught the body at this index for dragging.
    pub grabbed: Option<usize>,
    /// A left press on empty space placed a new body at the end.
    pub placed: bool,
    /// A right press deleted the body at this index.
    pub removed: Option<usize>,
    /// The dragged body at this index followed the cursor.
    pub moved: Option<usize>,
}

/// The gravity wells of the N-body preset, with the index of the one being
/// dragged, if any. The index is not kept in range when bodies are
/// deleted: a drag whose index falls outside the list moves nothing.
pub struct GravitySandbox<B> {
    pub bodies: Vec<B>,
    pub dragged: Option<usize>,
}

/// The bodies after the left press of a frame.
pub open spec fn bodies_after_press<B>(bodies: Seq<B>, placed: bool, new_body: B) -> Seq<B> {
    if placed {
        bodies.push(new_body)
    } else {
        bodies
    }
}

/// The drag index after the left press of a frame.
pub open spec fn drag_after_press(dragged: Option<usize>, grabbed: Option<usize>) -> Option<usize> {
    if grabbed is Some {
        grabbed
    } else {
        dragged
    }
}

/// The bodies after the right press of a frame.
pub open spec fn bodies_after_removal<B>(bodies: Seq<B>, removed: Option<usize>) -> Seq<B> {
    match removed {
        Some(i) => bodies.remove(i as int),
        None => bodies,
    }
}

/// The index that the drag step of a frame moves: the drag index after the
/// press, while the left button is held and the index is in range.
pub open spec fn drag_target(left_down: bool, dragged: Option<usize>, len: nat) -> Option<usize> {
    match dragged {
        Some(i) => if left_down && i < len {
            Some(i)
        } else {
            None
        },
        None => None,
    }
}

impl<B> GravitySandbox<B> {
    /// A sandbox holding `bodies`, with nothing dragged.
    pub fn new(bodies: Vec<B>) -> (s: Self)
        ensures
            s.bodies@ == bodies@,
            s.dragged is None,
    {
        GravitySandbox { bodies, dragged: None }
    }

    /// Handles the pointer for one frame. `near` tells whether a body lies
    /// under the cursor, `new_body` is the body a placing click adds, and
    /// `relocate` gives a dragged body its place under the cursor.
    ///
    /// While inactive nothing changes but the drag, which ends. Otherwise, in
    /// this order: a left press grabs the first body under the cursor, or,
    /// with the placing tool and no body there, appends `new_body`; a right
    /// press deletes the first body under the cursor; then a held left button
    /// moves the dragged body, if its index is in range, and a released one
    /// ends the drag.
    pub fn pointer_frame<N: Fn(&B) -> bool, R: Fn(&B) -> B>(
        &mut self,
        frame: PointerFrame,
        near: N,
        new_body: B,
        relocate: R,
    ) -> (out: PointerOutcome)
        requires
            forall|b: &B| near.requires((b,)),
            forall|b: &B| relocate.requires((b,)),
        ensures
            !frame.active ==> {
                &&& final(self).bodies@ == old(self).bodies@
                &&& final(self).dragged is None
                &&& out == (PointerOutcome { grabbed: None, placed: false, removed: None, moved: None })
            },
            frame.active ==> ({
                let pressed = bodies_after_press(old(self).bodies@, out.placed, new_body);
                let held = drag_after_press(old(self).dragged, out.grabbed);
                let kept = bodies_after_removal(pressed, out.removed);
                &&& if frame.left_pressed {
                    is_first_near(old(self).bodies@, near, out.grabbed)
                } else {
                    out.grabbed is None
                }
                &&& out.placed == (frame.left_pressed && out.grabbed is None && frame.placing)
                &&& if frame.right_pressed {
                    is_first_near(pressed, near, out.removed)
                } else {
                    out.removed is None
                }
                &&& out.removed matches Some(i) ==> kept == pressed.subrange(0, i as int) + pressed.subrange(
                    i + 1,
                    pressed.len() as int,
                )
                &&& out.removed is None ==> kept == pressed
                &&& out.moved == drag_target(frame.left_down, held, kept.len())
                &&& final(self).dragged == (if frame.left_down { held } else { None })
                &&& final(self).bodies@.len() == kept.len()
                &&& forall|j: int|
                    0 <= j < kept.len() && out.moved != Some(j as usize) ==> #[trigger] final(self).bodies@[j]
                        == kept[j]
                &&& out.moved matches Some(i) ==> relocate.ensures(
                    (&kept[i as int],),
                    final(self).bodies@[i as int],
                )
            }),
    {
        if !frame.active {
            self.dragged = None;
            return PointerOutcome { grabbed: None, placed: false, removed: None, moved: None };
        }
        let mut grabbed: Option<usize> = None;
        let mut placed = false;
        if frame.left_pressed {
            grabbed = first_near(&self.bodies, &near);
            match grabbed {
                Some(i) => {
                    self.dragged = Some(i);
                },
                None => {
                    if frame.placing {
                        self.bodies.push(new_body);
                        placed = true;
                    }
                },
            }
        }
        let mut removed: Option<usize> = None;
        if frame.right_pressed {
            removed = first_near(&self.bodies, &near);
            if let Some(i) = removed {
                self.bodies.remove(i);
            }
        }
        let mut moved: Option<usize> = None;
        if let Some(i) = self.dragged {
            if frame.left_down {
                if i < self.bodies.len() {
                    let b = relocate(&self.bodies[i]);
                    self.bodies.set(i, b);
                    moved = Some(i);
                }
            } else {
                self.dragged = None;
            }
        }
        PointerOutcome { grabbed, placed, removed, moved }
    }
}


/// A frame changes the number of bodies by one for a placed body and by
/// minus one for a deleted body, and by nothing else.
pub proof fn lemma_frame_body_count<B>(
    bodies: Seq<B>,
    placed: bool,
    new_body: B,
    removed: Option<usize>,
)
    requires
        removed matches Some(i) ==> i < bodies_after_press(bodies, placed, new_body).len(),
    ensures
        bodies_after_removal(bodies_after_press(bodies, placed, new_body), removed).len() + (if removed
            is Some {
            1int
        } else {
            0int
        }) == bodies.len() + (if placed {
            1int
        } else {
            0int
        }),
{
}

/// Deleting a body that was just placed gives back the bodies as they were
/// before the placement.
pub proof fn lemma_place_then_delete_restores<B>(bodies: Seq<B>, new_body: B)
    requires
        bodies.len() <= usize::MAX,
    ensures
        bodies_after_removal(
            bodies_after_press(bodies, true, new_body),
            Some(bodies.len() as usize),
        ) == bodies,
{
    assert(bodies.push(new_body).remove(bodies.len() as int) =~= bodies);
}

/// A body grabbed by a left press that stays held is moved in the same
/// frame, unless a right press in that frame deleted a body; and a frame with
/// no drag held over from before and no grab moves nothing.
pub proof fn lemma_drag_follows_grab<B>(bodies: Seq<B>, dragged: Option<usize>, i: usize, new_body: B)
    ensures
        i < bodies.len() ==> drag_target(
            true,
            drag_after_press(dragged, Some(i)),
            bodies_after_removal(bodies_after_press(bodies, false, new_body), None).len(),
        ) == Some(i),
        forall|left_down: bool, len: nat| drag_target(left_down, drag_after_press(None, None), len) is None,
{
}


/// Deleting the body at index `i` removes exactly that body: the bodies
/// before it keep their places, the ones after it move down by one, and
/// nothing else changes.
pub proof fn lemma_removal_deletes_exactly<B>(bodies: Seq<B>, i: usize)
    requires
        i < bodies.len(),
    ensures
        bodies_after_removal(bodies, Some(i)).len() + 1 == bodies.len(),
        forall|j: int| 0 <= j < i ==> #[trigger] bodies_after_removal(bodies, Some(i))[j] == bodies[j],
        forall|j: int|
            i <= j < bodies.len() - 1 ==> #[trigger] bodies_after_removal(bodies, Some(i))[j]
                == bodies[j + 1],
        bodies_after_removal(bodies, Some(i)) == bodies.subrange(0, i as int) + bodies.subrange(
            i + 1,
            bodies.len() as int,
        ),
        bodies_after_removal(bodies, None) == bodies,
{
    assert(bodies_after_removal(bodies, Some(i)) =~= bodies.subrange(0, i as int) + bodies.subrange(
        i + 1,
        bodies.len() as int,
    ));
}


/// A placing press appends the new body after all the others and changes
/// none of them; a press that places nothing leaves the bodies alone. A grab
/// replaces the drag index by the grabbed one, and no grab keeps it. The
/// drag step moves the body at index `i` exactly when the button is held,
/// `i` is the drag index, and `i` is in range.
pub proof fn lemma_press_and_drag<B>(
    bodies: Seq<B>,
    new_body: B,
    dragged: Option<usize>,
    grabbed: Option<usize>,
    left_down: bool,
    len: nat,
    i: usize,
)
    ensures
        bodies_after_press(bodies, true, new_body).len() == bodies.len() + 1,
        bodies_after_press(bodies, true, new_body).last() == new_body,
        forall|j: int|
            0 <= j < bodies.len() ==> #[trigger] bodies_after_press(bodies, true, new_body)[j]
                == bodies[j],
        bodies_after_press(bodies, false, new_body) == bodies,
        grabbed is Some ==> drag_after_press(dragged, grabbed) == grabbed,
        grabbed is None ==> drag_after_press(dragged, grabbed) == dragged,
        drag_target(left_down, dragged, len) == Some(i) <==> (left_down && dragged == Some(i) && i
            < len),
        drag_target(left_down, dragged, len) is Some ==> drag_target(left_down, dragged, len)
            == dragged,
{
}

} // verus!
