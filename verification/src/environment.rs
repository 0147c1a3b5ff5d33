//! The store of variable bindings: frames that chain to their parents.
//!
//! Frames live in one arena and are named by their position in it. A closure
//! holds the position of the frame it captured, so a frame is shared by
//! everything that names it: a binding changed through one chain is changed
//! for every chain that runs through the same frame.
//!
//! A frame is made when a block or a function's body is entered, and is left
//! when that ends. A frame that was left is dropped if nothing can name it
//! any more: if no closure captured it and no frame was made after it.

use vstd::prelude::*;
use vstd::hash_map::StringHashMap;
use vstd::string::StringExecFns;
use crate::error::{RuntimeError, RuntimeErrorView};
use crate::value::{Value, ValueView};

verus! {

/// One scope: its bindings, the frame that encloses it, the frame that was
/// current when it was made, and whether a closure captured it.
pub struct Frame {
    values: StringHashMap<Value>,
    parent: Option<usize>,
    caller: Option<usize>,
    captured: bool,
}

pub struct FrameView {
    pub values: Map<Seq<char>, ValueView>,
    /// The frame in which names are looked up that this frame does not bind.
    pub parent: Option<nat>,
    /// The frame that is current again when this frame is left.
    pub caller: Option<nat>,
    /// Whether a closure holds this frame.
    pub captured: bool,
}

impl View for Frame {
    type V = FrameView;

    closed spec fn view(&self) -> FrameView {
        FrameView {
            values: self.values@.map_values(|v: Value| v@),
            parent: match self.parent {
                Some(p) => Some(p as nat),
                None => None,
            },
            caller: match self.caller {
                Some(c) => Some(c as nat),
                None => None,
            },
            captured: self.captured,
        }
    }
}

/// All frames, and the one in which evaluation currently takes place.
pub struct Environment {
    frames: Vec<Frame>,
    current: usize,
}

pub struct EnvironmentView {
    pub frames: Seq<FrameView>,
    pub current: nat,
}

impl View for Environment {
    type V = EnvironmentView;

    closed spec fn view(&self) -> EnvironmentView {
        EnvironmentView {
            frames: Seq::new(self.frames.len() as nat, |i: int| self.frames[i]@),
            current: self.current as nat,
        }
    }
}

/// The nearest frame, from `start` up the chain of parents, that binds
/// `name`.
pub open spec fn resolve(frames: Seq<FrameView>, start: nat, name: Seq<char>) -> Option<nat>
    decreases start,
{
    if start >= frames.len() {
        None
    } else if frames[start as int].values.contains_key(name) {
        Some(start)
    } else {
        match frames[start as int].parent {
            Some(p) if p < start => resolve(frames, p, name),
            _ => None,
        }
    }
}

/// What a frame refers to was made before the frame, which stands at `i`.
pub open spec fn older(frame: FrameView, i: int) -> bool {
    &&& match frame.parent {
        Some(p) => p < i,
        None => true,
    }
    &&& match frame.caller {
        Some(c) => c < i,
        None => true,
    }
}

/// The frames without those at the end that no closure captured. The root
/// frame stays.
pub open spec fn trimmed(frames: Seq<FrameView>) -> Seq<FrameView>
    decreases frames.len(),
{
    if frames.len() > 1 && !frames.last().captured {
        trimmed(frames.drop_last())
    } else {
        frames
    }
}

impl EnvironmentView {
    /// The current frame exists, and every frame was made after its parent
    /// and after the frame that was current when it was made.
    pub open spec fn wf(self) -> bool {
        &&& self.current < self.frames.len()
        &&& forall|i: int| 0 <= i < self.frames.len() ==> older(#[trigger] self.frames[i], i)
    }

    /// The value of `name` as seen from the current frame.
    pub open spec fn get(self, name: Seq<char>) -> Option<ValueView> {
        match resolve(self.frames, self.current, name) {
            Some(f) => Some(self.frames[f as int].values[name]),
            None => None,
        }
    }

    /// The environment with `name` bound to `value` in frame `frame`.
    pub open spec fn with_binding(self, frame: nat, name: Seq<char>, value: ValueView) -> Self {
        EnvironmentView {
            frames: self.frames.update(
                frame as int,
                FrameView {
                    values: self.frames[frame as int].values.insert(name, value),
                    ..self.frames[frame as int]
                },
            ),
            current: self.current,
        }
    }

    /// Assignment: the nearest frame that binds `name` gets the new value.
    /// There is no result when no frame of the chain binds `name`.
    pub open spec fn set(self, name: Seq<char>, value: ValueView) -> Option<Self> {
        match resolve(self.frames, self.current, name) {
            Some(f) => Some(self.with_binding(f, name, value)),
            None => None,
        }
    }

    /// Definition: the current frame gets a new binding. There is no result
    /// when the current frame binds `name` already; parents are not asked.
    pub open spec fn define(self, name: Seq<char>, value: ValueView) -> Option<Self> {
        if self.frames[self.current as int].values.contains_key(name) {
            None
        } else {
            Some(self.with_binding(self.current, name, value))
        }
    }

    /// The current frame with `name` bound to `value`, whatever it held.
    pub open spec fn bind(self, name: Seq<char>, value: ValueView) -> Self {
        self.with_binding(self.current, name, value)
    }

    /// A new empty frame below `parent`, to be left for the frame that is
    /// current now. Its position is the former number of frames.
    pub open spec fn child_of(self, parent: nat) -> Option<Self> {
        if parent < self.frames.len() {
            Some(
                EnvironmentView {
                    frames: self.frames.push(
                        FrameView {
                            values: Map::empty(),
                            parent: Some(parent),
                            caller: Some(self.current),
                            captured: false,
                        },
                    ),
                    current: self.current,
                },
            )
        } else {
            None
        }
    }

    /// The current frame is held by a closure from now on.
    pub open spec fn capture(self) -> Self {
        EnvironmentView {
            frames: self.frames.update(
                self.current as int,
                FrameView { captured: true, ..self.frames[self.current as int] },
            ),
            current: self.current,
        }
    }

    /// The current frame is left for the frame that was current when it was
    /// made. It is dropped if it is the last frame and no closure holds it.
    /// The root frame is never left.
    pub open spec fn leave(self) -> Self {
        let frame = self.frames[self.current as int];
        match frame.caller {
            None => self,
            Some(caller) => if self.current + 1 == self.frames.len() && !frame.captured {
                EnvironmentView { frames: self.frames.drop_last(), current: caller }
            } else {
                EnvironmentView { frames: self.frames, current: caller }
            },
        }
    }

    /// The root frame is current again, and the frames at the end that no
    /// closure holds are dropped.
    pub open spec fn reset(self) -> Self {
        EnvironmentView { frames: trimmed(self.frames), current: 0 }
    }

    /// The same frames, seen from `frame`.
    pub open spec fn enter(self, frame: nat) -> Self {
        EnvironmentView { frames: self.frames, current: frame }
    }

    /// The environment that a new interpreter starts with: one empty frame.
    pub open spec fn root() -> Self {
        EnvironmentView {
            frames: seq![
                FrameView { values: Map::empty(), parent: None, caller: None, captured: false },
            ],
            current: 0,
        }
    }
}

impl Frame {
    fn new(parent: Option<usize>, caller: Option<usize>) -> (r: Frame)
        ensures
            r@ == (FrameView {
                values: Map::empty(),
                parent: match parent {
                    Some(p) => Some(p as nat),
                    None => None,
                },
                caller: match caller {
                    Some(c) => Some(c as nat),
                    None => None,
                },
                captured: false,
            }),
    {
        let r = Frame { values: StringHashMap::new(), parent, caller, captured: false };
        assert(r@.values =~= Map::empty());
        r
    }

    fn insert(&mut self, name: String, value: Value)
        ensures
            final(self)@ == (FrameView {
                values: old(self)@.values.insert(name@, value@),
                ..old(self)@
            }),
    {
        self.values.insert(name, value);
        assert(self@.values =~= old(self)@.values.insert(name@, value@));
    }

    fn has(&self, name: &str) -> (r: bool)
        ensures
            r == self@.values.contains_key(name@),
    {
        self.values.contains_key(name)
    }

    fn read(&self, name: &str) -> (r: Option<Value>)
        ensures
            match r {
                Some(v) => self@.values.contains_key(name@) && self@.values[name@] == v@,
                None => !self@.values.contains_key(name@),
            },
    {
        match self.values.get(name) {
            Some(v) => Some(v.clone()),
            None => None,
        }
    }

    fn hold(&mut self)
        ensures
            final(self)@ == (FrameView { captured: true, ..old(self)@ }),
    {
        self.captured = true;
    }
}

impl Environment {
    /// An environment of one empty root frame.
    pub fn new() -> (r: Environment)
        ensures
            r@ == EnvironmentView::root(),
            r@.wf(),
    {
        let mut frames: Vec<Frame> = Vec::new();
        frames.push(Frame::new(None, None));
        let r = Environment { frames, current: 0 };
        assert(r@.frames =~= EnvironmentView::root().frames);
        r
    }

    /// The position of the current frame.
    pub fn current(&self) -> (r: usize)
        ensures
            r == self@.current,
    {
        self.current
    }

    /// The number of frames.
    pub fn len(&self) -> (r: usize)
        ensures
            r == self@.frames.len(),
    {
        self.frames.len()
    }

    /// The nearest frame of the current chain that binds `name`.
    fn find(&self, name: &str) -> (r: Option<usize>)
        requires
            self@.wf(),
        ensures
            match r {
                Some(f) => resolve(self@.frames, self@.current, name@) == Some(f as nat),
                None => resolve(self@.frames, self@.current, name@).is_none(),
            },
            r matches Some(f) ==> f < self@.frames.len(),
    {
        let mut at = self.current;
        loop
            invariant
                self@.wf(),
                at < self.frames.len(),
                resolve(self@.frames, self@.current, name@) == resolve(self@.frames, at as nat, name@),
            decreases at,
        {
            let frame = &self.frames[at];
            assert(frame@ == self@.frames[at as int]);
            if frame.has(name) {
                return Some(at);
            }
            match frame.parent {
                Some(p) => {
                    assert(self@.frames[at as int].parent == Some(p as nat));
                    at = p;
                },
                None => {
                    assert(self@.frames[at as int].parent.is_none());
                    return None;
                },
            }
        }
    }

    /// The value of `name`, from the nearest frame that binds it.
    pub fn get(&self, name: &str) -> (r: Result<Value, RuntimeError>)
        requires
            self@.wf(),
        ensures
            match r {
                Ok(v) => self@.get(name@) == Some(v@),
                Err(e) => self@.get(name@).is_none() && e@ == RuntimeErrorView::UndefinedVariable(
                    name@,
                ),
            },
    {
        match self.find(name) {
            Some(f) => {
                assert(self.frames[f as int]@ == self@.frames[f as int]);
                match self.frames[f].read(name) {
                    Some(v) => Ok(v),
                    None => {
                        proof {
                            self@.resolved_frame_binds(self@.current, name@);
                        }
                        Err(RuntimeError::UndefinedVariable(String::from_str(name)))
                    },
                }
            },
            None => Err(RuntimeError::UndefinedVariable(String::from_str(name))),
        }
    }

    fn insert_at(&mut self, frame: usize, name: String, value: Value)
        requires
            old(self)@.wf(),
            frame < old(self)@.frames.len(),
        ensures
            final(self)@ == old(self)@.with_binding(frame as nat, name@, value@),
            final(self)@.wf(),
            final(self)@.frames.len() == old(self)@.frames.len(),
    {
        let ghost before = self@;
        let ghost name_view = name@;
        let ghost value_view = value@;
        self.frames[frame].insert(name, value);
        assert(self@.frames =~= before.with_binding(frame as nat, name_view, value_view).frames);
        assert forall|i: int| 0 <= i < self@.frames.len() implies older(
            #[trigger] self@.frames[i],
            i,
        ) by {
            assert(older(before.frames[i], i));
        }
    }

    /// Gives `name` a new value in the nearest frame that binds it.
    pub fn set(&mut self, name: String, value: Value) -> (r: Result<(), RuntimeError>)
        requires
            old(self)@.wf(),
        ensures
            final(self)@.wf(),
            final(self)@.frames.len() == old(self)@.frames.len(),
            match r {
                Ok(()) => old(self)@.set(name@, value@) == Some(final(self)@),
                Err(e) => old(self)@.set(name@, value@).is_none() && final(self)@ == old(self)@
                    && e@ == RuntimeErrorView::Undeclared(name@),
            },
    {
        match self.find(name.as_str()) {
            Some(f) => {
                self.insert_at(f, name, value);
                Ok(())
            },
            None => Err(RuntimeError::Undeclared(name)),
        }
    }

    /// Binds a new name in the current frame.
    pub fn define(&mut self, name: String, value: Value) -> (r: Result<(), RuntimeError>)
        requires
            old(self)@.wf(),
        ensures
            final(self)@.wf(),
            final(self)@.frames.len() == old(self)@.frames.len(),
            match r {
                Ok(()) => old(self)@.define(name@, value@) == Some(final(self)@),
                Err(e) => old(self)@.define(name@, value@).is_none() && final(self)@ == old(
                    self,
                )@ && e@ == RuntimeErrorView::Redefinition(name@),
            },
    {
        let at = self.current;
        assert(self.frames[at as int]@ == self@.frames[at as int]);
        if self.frames[at].has(name.as_str()) {
            Err(RuntimeError::Redefinition(name))
        } else {
            self.insert_at(at, name, value);
            Ok(())
        }
    }

    /// Binds a name in the current frame, over any binding it had there.
    pub fn bind(&mut self, name: String, value: Value)
        requires
            old(self)@.wf(),
        ensures
            final(self)@.wf(),
            final(self)@.frames.len() == old(self)@.frames.len(),
            final(self)@ == old(self)@.bind(name@, value@),
    {
        let at = self.current;
        self.insert_at(at, name, value);
    }

    /// Makes a new empty frame below `parent` and gives its position, or
    /// nothing when there is no frame `parent`.
    pub fn child_of(&mut self, parent: usize) -> (r: Option<usize>)
        requires
            old(self)@.wf(),
        ensures
            final(self)@.wf(),
            match r {
                Some(id) => old(self)@.child_of(parent as nat) == Some(final(self)@) && id == old(
                    self,
                )@.frames.len(),
                None => old(self)@.child_of(parent as nat).is_none() && final(self)@ == old(
                    self,
                )@,
            },
    {
        if parent < self.frames.len() {
            let ghost before = self@;
            let id = self.frames.len();
            self.frames.push(Frame::new(Some(parent), Some(self.current)));
            assert(self@.frames =~= before.child_of(parent as nat).unwrap().frames);
            Some(id)
        } else {
            None
        }
    }

    /// Makes `frame` the current frame, if there is such a frame.
    pub fn enter(&mut self, frame: usize) -> (r: bool)
        requires
            old(self)@.wf(),
        ensures
            final(self)@.wf(),
            r == (frame < old(self)@.frames.len()),
            r ==> final(self)@ == old(self)@.enter(frame as nat),
            !r ==> final(self)@ == old(self)@,
    {
        if frame < self.frames.len() {
            self.current = frame;
            assert(self@.frames =~= old(self)@.frames);
            true
        } else {
            false
        }
    }

    /// Marks the current frame as held by a closure.
    pub fn capture(&mut self)
        requires
            old(self)@.wf(),
        ensures
            final(self)@.wf(),
            final(self)@ == old(self)@.capture(),
            final(self)@.frames.len() == old(self)@.frames.len(),
    {
        let ghost before = self@;
        let at = self.current;
        self.frames[at].hold();
        assert(self@.frames =~= before.capture().frames);
        assert forall|i: int| 0 <= i < self@.frames.len() implies older(
            #[trigger] self@.frames[i],
            i,
        ) by {
            assert(older(before.frames[i], i));
        }
    }

    /// Leaves the current frame for the frame that was current when it was
    /// made, and drops it if nothing can name it any more.
    pub fn leave(&mut self)
        requires
            old(self)@.wf(),
        ensures
            final(self)@.wf(),
            final(self)@ == old(self)@.leave(),
    {
        let ghost before = self@;
        let at = self.current;
        assert(self.frames[at as int]@ == before.frames[at as int]);
        assert(older(before.frames[at as int], at as int));
        let caller = match self.frames[at].caller {
            Some(caller) => caller,
            None => {
                return ;
            },
        };
        let drop = at + 1 == self.frames.len() && !self.frames[at].captured;
        if drop {
            let dropped = self.frames.pop();
            assert(self@.frames =~= before.frames.drop_last());
        } else {
            assert(self@.frames =~= before.frames);
        }
        self.current = caller;
        assert forall|i: int| 0 <= i < self@.frames.len() implies older(
            #[trigger] self@.frames[i],
            i,
        ) by {
            assert(older(before.frames[i], i));
        }
    }

    /// Goes back to the root frame, and drops the frames at the end that no
    /// closure holds.
    pub fn reset(&mut self)
        requires
            old(self)@.wf(),
        ensures
            final(self)@.wf(),
            final(self)@ == old(self)@.reset(),
    {
        let ghost before = self@;
        self.current = 0;
        assert(self@.frames =~= before.frames);
        while self.frames.len() > 1 && !self.frames[self.frames.len() - 1].captured
            invariant
                self.current == 0,
                self.frames.len() >= 1,
                trimmed(self@.frames) == trimmed(before.frames),
                forall|i: int| 0 <= i < self@.frames.len() ==> older(#[trigger] self@.frames[i], i),
            decreases self.frames.len(),
        {
            let ghost was = self@.frames;
            assert(self.frames[self.frames.len() - 1]@ == was.last());
            let dropped = self.frames.pop();
            assert(self@.frames =~= was.drop_last());
            assert forall|i: int| 0 <= i < self@.frames.len() implies older(
                #[trigger] self@.frames[i],
                i,
            ) by {
                assert(older(was[i], i));
            }
        }
        assert(self.frames[self.frames.len() - 1]@ == self@.frames.last());
    }
}

impl EnvironmentView {
    /// The frame that a name resolves to exists and binds the name.
    pub proof fn resolved_frame_binds(self, start: nat, name: Seq<char>)
        ensures
            match resolve(self.frames, start, name) {
                Some(f) => f <= start && f < self.frames.len() && self.frames[f as int].values.contains_key(
                    name,
                ),
                None => true,
            },
        decreases start,
    {
        if start < self.frames.len() && !self.frames[start as int].values.contains_key(name) {
            match self.frames[start as int].parent {
                Some(p) if p < start => self.resolved_frame_binds(p, name),
                _ => {},
            }
        }
    }

    /// Binding a name in the frame that it resolves to from `start` leaves
    /// the resolution of that name, from any frame, where it was.
    pub proof fn binding_keeps_resolution(
        self,
        frame: nat,
        name: Seq<char>,
        value: ValueView,
        from: nat,
        other: Seq<char>,
    )
        requires
            frame < self.frames.len(),
            self.frames[frame as int].values.contains_key(name) || other != name,
        ensures
            resolve(self.with_binding(frame, name, value).frames, from, other) == resolve(
                self.frames,
                from,
                other,
            ),
        decreases from,
    {
        let after = self.with_binding(frame, name, value);
        if from < self.frames.len() {
            assert(after.frames[from as int].values.contains_key(other)
                == self.frames[from as int].values.contains_key(other));
            if !self.frames[from as int].values.contains_key(other) {
                match self.frames[from as int].parent {
                    Some(p) if p < from => self.binding_keeps_resolution(
                        frame,
                        name,
                        value,
                        p,
                        other,
                    ),
                    _ => {},
                }
            }
        }
    }

    /// After `let name = value`, the name reads as the value.
    pub proof fn define_then_get(self, name: Seq<char>, value: ValueView)
        requires
            self.wf(),
            self.define(name, value).is_some(),
        ensures
            self.define(name, value).unwrap().get(name) == Some(value),
    {
    }

    /// A name cannot be defined twice in one frame.
    pub proof fn define_twice_fails(self, name: Seq<char>, first: ValueView, second: ValueView)
        requires
            self.wf(),
            self.define(name, first).is_some(),
        ensures
            self.define(name, first).unwrap().define(name, second).is_none(),
    {
    }

    /// Assignment succeeds exactly when the name can be read.
    pub proof fn set_needs_binding(self, name: Seq<char>, value: ValueView)
        ensures
            self.set(name, value).is_some() <==> self.get(name).is_some(),
    {
    }

    /// After an assignment the name reads as the assigned value.
    pub proof fn set_then_get(self, name: Seq<char>, value: ValueView)
        requires
            self.wf(),
            self.set(name, value).is_some(),
        ensures
            self.set(name, value).unwrap().get(name) == Some(value),
    {
        let f = resolve(self.frames, self.current, name).unwrap();
        self.resolved_frame_binds(self.current, name);
        self.binding_keeps_resolution(f, name, value, self.current, name);
    }

    /// Frames are shared: an assignment made from the current frame is seen
    /// from every frame whose chain finds the name in the same frame, such as
    /// the frame that a closure captured.
    pub proof fn assignment_is_shared(self, name: Seq<char>, value: ValueView, captured: nat)
        requires
            self.wf(),
            self.set(name, value).is_some(),
            resolve(self.frames, captured, name) == resolve(self.frames, self.current, name),
        ensures
            self.set(name, value).unwrap().enter(captured).get(name) == Some(value),
    {
        let f = resolve(self.frames, self.current, name).unwrap();
        self.resolved_frame_binds(self.current, name);
        self.binding_keeps_resolution(f, name, value, captured, name);
    }

    /// An assignment to one name changes no other name, seen from anywhere.
    pub proof fn assignment_keeps_others(
        self,
        name: Seq<char>,
        value: ValueView,
        from: nat,
        other: Seq<char>,
    )
        requires
            self.wf(),
            self.set(name, value).is_some(),
            other != name,
        ensures
            self.set(name, value).unwrap().enter(from).get(other) == self.enter(from).get(other),
    {
        let f = resolve(self.frames, self.current, name).unwrap();
        self.resolved_frame_binds(self.current, name);
        self.binding_keeps_resolution(f, name, value, from, other);
        self.resolved_frame_binds(from, other);
    }

    /// A frame that a closure holds is never dropped, neither when a frame
    /// is left nor when the environment is reset.
    pub proof fn held_frames_stay(self, held: nat)
        requires
            self.wf(),
            held < self.frames.len(),
            self.frames[held as int].captured,
        ensures
            held < self.leave().frames.len(),
            self.leave().frames[held as int] == self.frames[held as int],
            held < self.reset().frames.len(),
            self.reset().frames[held as int] == self.frames[held as int],
    {
        trimming_keeps_held(self.frames, held);
    }

    /// Dropping frames changes nothing for the frames that stay: every name
    /// resolves, from each of them, as it did.
    pub proof fn leaving_keeps_resolution(self, from: nat, name: Seq<char>)
        requires
            self.wf(),
            from < self.leave().frames.len(),
        ensures
            resolve(self.leave().frames, from, name) == resolve(self.frames, from, name),
            self.leave().frames[from as int] == self.frames[from as int],
    {
        prefix_keeps_resolution(self.frames, self.leave().frames, from, name);
    }
}

/// Trimming keeps every frame that a closure holds.
pub proof fn trimming_keeps_held(frames: Seq<FrameView>, held: nat)
    requires
        held < frames.len(),
        frames[held as int].captured,
    ensures
        held < trimmed(frames).len(),
        trimmed(frames)[held as int] == frames[held as int],
    decreases frames.len(),
{
    if frames.len() > 1 && !frames.last().captured {
        trimming_keeps_held(frames.drop_last(), held);
    }
}

/// In frames that are well formed, a name resolves within the frames up to
/// the one from which it is looked up: frames behind it play no part.
pub proof fn prefix_keeps_resolution(
    frames: Seq<FrameView>,
    prefix: Seq<FrameView>,
    from: nat,
    name: Seq<char>,
)
    requires
        prefix.len() <= frames.len(),
        forall|i: int| 0 <= i < prefix.len() ==> prefix[i] == frames[i],
        from < prefix.len(),
    ensures
        resolve(prefix, from, name) == resolve(frames, from, name),
    decreases from,
{
    if !frames[from as int].values.contains_key(name) {
        match frames[from as int].parent {
            Some(p) if p < from => prefix_keeps_resolution(frames, prefix, p, name),
            _ => {},
        }
    }
}

} // verus!
