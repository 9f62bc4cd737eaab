use vstd::prelude::*;

use crate::server::response::WebDriverErrorResponse;

use crate::platform::executor::PointerEventType;

verus! {

#[derive(Debug)]
pub struct ActionsRequest {
    pub actions: Vec<ActionSequence>,
}

#[derive(Debug)]
pub enum ActionSequence {
    Key { _id: String, actions: Vec<KeyAction> },
    Pointer { _id: String, actions: Vec<PointerAction> },
    Wheel { _id: String, actions: Vec<WheelAction> },
    NoInput { _id: String, actions: Vec<PauseAction> },
}

#[derive(Debug)]
pub enum KeyAction {
    KeyDown { value: String },
    KeyUp { value: String },
    Pause { duration: Option<u64> },
}

#[derive(Debug)]
pub enum PointerAction {
    PointerDown { button: u32 },
    PointerUp { button: u32 },
    PointerMove { x: i32, y: i32, duration: Option<u64> },
    Pause { duration: Option<u64> },
}

#[derive(Debug)]
pub enum WheelAction {
    Scroll { x: i32, y: i32, delta_x: i32, delta_y: i32, duration: Option<u64> },
    Pause { duration: Option<u64> },
}

#[derive(Debug)]
pub enum PauseAction {
    Pause { duration: Option<u64> },
}

/// One thing to do, in order, to perform an actions request.
#[derive(Debug)]
pub enum ActionStep {
    /// Dispatch a key press (`down`) or release.
    Key { key: String, down: bool },
    /// Dispatch a pointer event at a position.
    Pointer { event: PointerEventType, x: i32, y: i32, button: u32 },
    /// Dispatch a wheel event.
    Scroll { x: i32, y: i32, delta_x: i32, delta_y: i32 },
    /// Wait for the given number of milliseconds.
    Sleep { ms: u64 },
}

/// A pause: a wait when it has a duration, nothing otherwise.
pub open spec fn pause_steps(duration: Option<u64>) -> Seq<ActionStep> {
    match duration {
        Some(ms) => seq![ActionStep::Sleep { ms }],
        None => Seq::empty(),
    }
}

/// The wait before a pointer move or a scroll: only for a positive duration.
pub open spec fn lead_in_steps(duration: Option<u64>) -> Seq<ActionStep> {
    match duration {
        Some(ms) => if ms > 0 {
            seq![ActionStep::Sleep { ms }]
        } else {
            Seq::empty()
        },
        None => Seq::empty(),
    }
}

pub open spec fn key_action_steps(a: KeyAction) -> Seq<ActionStep> {
    match a {
        KeyAction::KeyDown { value } => seq![ActionStep::Key { key: value, down: true }],
        KeyAction::KeyUp { value } => seq![ActionStep::Key { key: value, down: false }],
        KeyAction::Pause { duration } => pause_steps(duration),
    }
}

pub open spec fn key_steps(acts: Seq<KeyAction>) -> Seq<ActionStep>
    decreases acts.len(),
{
    if acts.len() == 0 {
        Seq::empty()
    } else {
        key_steps(acts.drop_last()) + key_action_steps(acts.last())
    }
}

/// The steps of one pointer action when the pointer is at (`x`, `y`).
pub open spec fn pointer_action_steps(a: PointerAction, x: i32, y: i32) -> Seq<ActionStep> {
    match a {
        PointerAction::PointerDown { button } => seq![
            ActionStep::Pointer { event: PointerEventType::Down, x, y, button },
        ],
        PointerAction::PointerUp { button } => seq![
            ActionStep::Pointer { event: PointerEventType::Up, x, y, button },
        ],
        PointerAction::PointerMove { x: nx, y: ny, duration } => lead_in_steps(duration) + seq![
            ActionStep::Pointer { event: PointerEventType::Move, x: nx, y: ny, button: 0 },
        ],
        PointerAction::Pause { duration } => pause_steps(duration),
    }
}

/// Where the pointer is after one pointer action.
pub open spec fn pointer_action_pos(a: PointerAction, x: i32, y: i32) -> (i32, i32) {
    match a {
        PointerAction::PointerMove { x: nx, y: ny, .. } => (nx, ny),
        _ => (x, y),
    }
}

pub open spec fn pointer_pos(acts: Seq<PointerAction>, x: i32, y: i32) -> (i32, i32)
    decreases acts.len(),
{
    if acts.len() == 0 {
        (x, y)
    } else {
        let p = pointer_pos(acts.drop_last(), x, y);
        pointer_action_pos(acts.last(), p.0, p.1)
    }
}

pub open spec fn pointer_steps(acts: Seq<PointerAction>, x: i32, y: i32) -> Seq<ActionStep>
    decreases acts.len(),
{
    if acts.len() == 0 {
        Seq::empty()
    } else {
        let p = pointer_pos(acts.drop_last(), x, y);
        pointer_steps(acts.drop_last(), x, y) + pointer_action_steps(acts.last(), p.0, p.1)
    }
}

pub open spec fn wheel_action_steps(a: WheelAction) -> Seq<ActionStep> {
    match a {
        WheelAction::Scroll { x, y, delta_x, delta_y, duration } => lead_in_steps(duration) + seq![
            ActionStep::Scroll { x, y, delta_x, delta_y },
        ],
        WheelAction::Pause { duration } => pause_steps(duration),
    }
}

pub open spec fn wheel_steps(acts: Seq<WheelAction>) -> Seq<ActionStep>
    decreases acts.len(),
{
    if acts.len() == 0 {
        Seq::empty()
    } else {
        wheel_steps(acts.drop_last()) + wheel_action_steps(acts.last())
    }
}

pub open spec fn pause_action_steps(a: PauseAction) -> Seq<ActionStep> {
    match a {
        PauseAction::Pause { duration } => pause_steps(duration),
    }
}

pub open spec fn pause_only_steps(acts: Seq<PauseAction>) -> Seq<ActionStep>
    decreases acts.len(),
{
    if acts.len() == 0 {
        Seq::empty()
    } else {
        pause_only_steps(acts.drop_last()) + pause_action_steps(acts.last())
    }
}

/// The steps of one input source's actions, the pointer being at (`x`, `y`).
pub open spec fn sequence_steps(s: ActionSequence, x: i32, y: i32) -> Seq<ActionStep> {
    match s {
        ActionSequence::Key { actions, .. } => key_steps(actions@),
        ActionSequence::Pointer { actions, .. } => pointer_steps(actions@, x, y),
        ActionSequence::Wheel { actions, .. } => wheel_steps(actions@),
        ActionSequence::NoInput { actions, .. } => pause_only_steps(actions@),
    }
}

/// Where the pointer is after one input source's actions.
pub open spec fn sequence_pos(s: ActionSequence, x: i32, y: i32) -> (i32, i32) {
    match s {
        ActionSequence::Pointer { actions, .. } => pointer_pos(actions@, x, y),
        _ => (x, y),
    }
}

/// Where the pointer is after the given input sources, starting at (0, 0).
pub open spec fn plan_pos(seqs: Seq<ActionSequence>) -> (i32, i32)
    decreases seqs.len(),
{
    if seqs.len() == 0 {
        (0, 0)
    } else {
        let p = plan_pos(seqs.drop_last());
        sequence_pos(seqs.last(), p.0, p.1)
    }
}

/// The steps that perform the given input sources one after the other, the pointer
/// starting at (0, 0) and keeping its position from one source to the next.
pub open spec fn plan_steps(seqs: Seq<ActionSequence>) -> Seq<ActionStep>
    decreases seqs.len(),
{
    if seqs.len() == 0 {
        Seq::empty()
    } else {
        let p = plan_pos(seqs.drop_last());
        plan_steps(seqs.drop_last()) + sequence_steps(seqs.last(), p.0, p.1)
    }
}

fn push_pause(steps: &mut Vec<ActionStep>, duration: Option<u64>)
    ensures
        final(steps)@ == old(steps)@ + pause_steps(duration),
{
    match duration {
        Some(ms) => {
            steps.push(ActionStep::Sleep { ms });
            proof {
                assert(final(steps)@ =~= old(steps)@ + pause_steps(duration));
            }
        },
        None => {
            proof {
                assert(steps@ =~= steps@ + pause_steps(duration));
            }
        },
    }
}

fn push_lead_in(steps: &mut Vec<ActionStep>, duration: Option<u64>)
    ensures
        final(steps)@ == old(steps)@ + lead_in_steps(duration),
{
    match duration {
        Some(ms) => {
            if ms > 0 {
                steps.push(ActionStep::Sleep { ms });
                proof {
                    assert(final(steps)@ =~= old(steps)@ + lead_in_steps(duration));
                }
            } else {
                proof {
                    assert(steps@ =~= steps@ + lead_in_steps(duration));
                }
            }
        },
        None => {
            proof {
                assert(steps@ =~= steps@ + lead_in_steps(duration));
            }
        },
    }
}

fn push_key_steps(steps: &mut Vec<ActionStep>, acts: &Vec<KeyAction>)
    ensures
        final(steps)@ == old(steps)@ + key_steps(acts@),
{
    let ghost start = steps@;
    let n = acts.len();
    for j in 0..n
        invariant
            n == acts@.len(),
            steps@ == start + key_steps(acts@.take(j as int)),
    {
        let ghost before = steps@;
        match &acts[j] {
            KeyAction::KeyDown { value } => {
                steps.push(ActionStep::Key { key: value.clone(), down: true });
            },
            KeyAction::KeyUp { value } => {
                steps.push(ActionStep::Key { key: value.clone(), down: false });
            },
            KeyAction::Pause { duration } => {
                push_pause(steps, *duration);
            },
        }
        proof {
            assert(steps@ =~= before + key_action_steps(acts@[j as int]));
            assert(acts@.take(j + 1).drop_last() =~= acts@.take(j as int));
            assert(acts@.take(j + 1).last() == acts@[j as int]);
        }
    }
    proof {
        assert(acts@.take(n as int) =~= acts@);
    }
}

fn push_pointer_steps(steps: &mut Vec<ActionStep>, acts: &Vec<PointerAction>, x: i32, y: i32) -> (pos: (i32, i32))
    ensures
        final(steps)@ == old(steps)@ + pointer_steps(acts@, x, y),
        pos == pointer_pos(acts@, x, y),
{
    let ghost start = steps@;
    let n = acts.len();
    let mut px = x;
    let mut py = y;
    for j in 0..n
        invariant
            n == acts@.len(),
            steps@ == start + pointer_steps(acts@.take(j as int), x, y),
            (px, py) == pointer_pos(acts@.take(j as int), x, y),
    {
        let ghost before = steps@;
        let ghost (bx, by) = (px, py);
        match &acts[j] {
            PointerAction::PointerDown { button } => {
                steps.push(
                    ActionStep::Pointer { event: PointerEventType::Down, x: px, y: py, button: *button },
                );
            },
            PointerAction::PointerUp { button } => {
                steps.push(
                    ActionStep::Pointer { event: PointerEventType::Up, x: px, y: py, button: *button },
                );
            },
            PointerAction::PointerMove { x: nx, y: ny, duration } => {
                px = *nx;
                py = *ny;
                push_lead_in(steps, *duration);
                steps.push(ActionStep::Pointer { event: PointerEventType::Move, x: px, y: py, button: 0 });
            },
            PointerAction::Pause { duration } => {
                push_pause(steps, *duration);
            },
        }
        proof {
            assert(steps@ =~= before + pointer_action_steps(acts@[j as int], bx, by));
            assert((px, py) == pointer_action_pos(acts@[j as int], bx, by));
            assert(acts@.take(j + 1).drop_last() =~= acts@.take(j as int));
            assert(acts@.take(j + 1).last() == acts@[j as int]);
        }
    }
    proof {
        assert(acts@.take(n as int) =~= acts@);
    }
    (px, py)
}

fn push_wheel_steps(steps: &mut Vec<ActionStep>, acts: &Vec<WheelAction>)
    ensures
        final(steps)@ == old(steps)@ + wheel_steps(acts@),
{
    let ghost start = steps@;
    let n = acts.len();
    for j in 0..n
        invariant
            n == acts@.len(),
            steps@ == start + wheel_steps(acts@.take(j as int)),
    {
        let ghost before = steps@;
        match &acts[j] {
            WheelAction::Scroll { x, y, delta_x, delta_y, duration } => {
                push_lead_in(steps, *duration);
                steps.push(
                    ActionStep::Scroll { x: *x, y: *y, delta_x: *delta_x, delta_y: *delta_y },
                );
            },
            WheelAction::Pause { duration } => {
                push_pause(steps, *duration);
            },
        }
        proof {
            assert(steps@ =~= before + wheel_action_steps(acts@[j as int]));
            assert(acts@.take(j + 1).drop_last() =~= acts@.take(j as int));
            assert(acts@.take(j + 1).last() == acts@[j as int]);
        }
    }
    proof {
        assert(acts@.take(n as int) =~= acts@);
    }
}

fn push_pause_only_steps(steps: &mut Vec<ActionStep>, acts: &Vec<PauseAction>)
    ensures
        final(steps)@ == old(steps)@ + pause_only_steps(acts@),
{
    let ghost start = steps@;
    let n = acts.len();
    for j in 0..n
        invariant
            n == acts@.len(),
            steps@ == start + pause_only_steps(acts@.take(j as int)),
    {
        let ghost before = steps@;
        match &acts[j] {
            PauseAction::Pause { duration } => {
                push_pause(steps, *duration);
            },
        }
        proof {
            assert(steps@ =~= before + pause_action_steps(acts@[j as int]));
            assert(acts@.take(j + 1).drop_last() =~= acts@.take(j as int));
            assert(acts@.take(j + 1).last() == acts@[j as int]);
        }
    }
    proof {
        assert(acts@.take(n as int) =~= acts@);
    }
}

/// The steps that perform an actions request: each input source's actions in order, key
/// presses and releases, pointer events at the current pointer position (which pointer
/// moves update, starting at (0, 0)), wheel scrolls, and waits for pauses and for the
/// positive durations of moves and scrolls.
pub fn plan_actions(request: &ActionsRequest) -> (steps: Vec<ActionStep>)
    ensures
        steps@ == plan_steps(request.actions@),
{
    let mut steps: Vec<ActionStep> = Vec::new();
    let mut x: i32 = 0;
    let mut y: i32 = 0;
    let n = request.actions.len();
    for i in 0..n
        invariant
            n == request.actions@.len(),
            steps@ == plan_steps(request.actions@.take(i as int)),
            (x, y) == plan_pos(request.actions@.take(i as int)),
    {
        let ghost before = steps@;
        let ghost (bx, by) = (x, y);
        match &request.actions[i] {
            ActionSequence::Key { actions, .. } => {
                push_key_steps(&mut steps, actions);
            },
            ActionSequence::Pointer { actions, .. } => {
                let (nx, ny) = push_pointer_steps(&mut steps, actions, x, y);
                x = nx;
                y = ny;
            },
            ActionSequence::Wheel { actions, .. } => {
                push_wheel_steps(&mut steps, actions);
            },
            ActionSequence::NoInput { actions, .. } => {
                push_pause_only_steps(&mut steps, actions);
            },
        }
        proof {
            let s = request.actions@;
            assert(steps@ =~= before + sequence_steps(s[i as int], bx, by));
            assert((x, y) == sequence_pos(s[i as int], bx, by));
            assert(s.take(i + 1).drop_last() =~= s.take(i as int));
            assert(s.take(i + 1).last() == s[i as int]);
        }
    }
    proof {
        assert(request.actions@.take(n as int) =~= request.actions@);
    }
    steps
}

/// The first planned step to run: the first one, when there is any.
pub fn first_step(count: usize) -> (r: Option<usize>)
    ensures
        r == (if count > 0 {
            Some(0usize)
        } else {
            None
        }),
{
    if count > 0 {
        Some(0)
    } else {
        None
    }
}

/// What follows step `index` of `count` planned steps once it finished with `outcome`: a
/// failed step ends the actions with its error, so no later step runs; a step that
/// succeeded is followed by the next one, until the last.
pub fn next_step(count: usize, index: usize, outcome: Result<(), WebDriverErrorResponse>) -> (r:
    Result<Option<usize>, WebDriverErrorResponse>)
    requires
        index < count,
    ensures
        match outcome {
            Err(e) => r == Err::<Option<usize>, WebDriverErrorResponse>(e),
            Ok(_) => r == Ok::<Option<usize>, WebDriverErrorResponse>(
                if index + 1 < count {
                    Some((index + 1) as usize)
                } else {
                    None
                },
            ),
        },
{
    match outcome {
        Err(e) => Err(e),
        Ok(_) => {
            if index + 1 < count {
                Ok(Some(index + 1))
            } else {
                Ok(None)
            }
        },
    }
}

/// The presses and releases that a pointer action asks for: (`true` for a press, the
/// button) for `pointerDown`, (`false`, the button) for `pointerUp`, none otherwise.
pub open spec fn action_presses(a: PointerAction) -> Seq<(bool, u32)> {
    match a {
        PointerAction::PointerDown { button } => seq![(true, button)],
        PointerAction::PointerUp { button } => seq![(false, button)],
        _ => Seq::empty(),
    }
}

/// The presses and releases that pointer actions ask for, in order.
pub open spec fn requested_presses(acts: Seq<PointerAction>) -> Seq<(bool, u32)>
    decreases acts.len(),
{
    if acts.len() == 0 {
        Seq::empty()
    } else {
        requested_presses(acts.drop_last()) + action_presses(acts.last())
    }
}

/// The press or release that a planned step dispatches, if any: a pointer `Down` or `Up`
/// event with its button.
pub open spec fn step_presses(step: ActionStep) -> Seq<(bool, u32)> {
    match step {
        ActionStep::Pointer { event, button, .. } => match event {
            PointerEventType::Down => seq![(true, button)],
            PointerEventType::Up => seq![(false, button)],
            PointerEventType::Move => Seq::empty(),
        },
        _ => Seq::empty(),
    }
}

/// The presses and releases that planned steps dispatch, in order.
pub open spec fn dispatched_presses(steps: Seq<ActionStep>) -> Seq<(bool, u32)>
    decreases steps.len(),
{
    if steps.len() == 0 {
        Seq::empty()
    } else {
        dispatched_presses(steps.drop_last()) + step_presses(steps.last())
    }
}

proof fn lemma_dispatched_presses_concat(a: Seq<ActionStep>, b: Seq<ActionStep>)
    ensures
        dispatched_presses(a + b) == dispatched_presses(a) + dispatched_presses(b),
    decreases b.len(),
{
    if b.len() == 0 {
        assert(a + b =~= a);
        assert(dispatched_presses(a) + dispatched_presses(b) =~= dispatched_presses(a));
    } else {
        assert((a + b).drop_last() =~= a + b.drop_last());
        lemma_dispatched_presses_concat(a, b.drop_last());
        assert(dispatched_presses(a) + (dispatched_presses(b.drop_last()) + step_presses(b.last()))
            =~= (dispatched_presses(a) + dispatched_presses(b.drop_last())) + step_presses(b.last()));
    }
}

proof fn lemma_presses_of_short(steps: Seq<ActionStep>)
    requires
        steps.len() <= 2,
        forall|i: int| 0 <= i < steps.len() ==> #[trigger] step_presses(steps[i]) == Seq::<(bool, u32)>::empty(),
    ensures
        dispatched_presses(steps) == Seq::<(bool, u32)>::empty(),
    decreases steps.len(),
{
    if steps.len() >= 1 {
        let d = steps.drop_last();
        assert forall|i: int| 0 <= i < d.len() implies #[trigger] step_presses(d[i]) == Seq::<(bool, u32)>::empty() by {
            assert(d[i] == steps[i]);
        }
        lemma_presses_of_short(d);
        assert(step_presses(steps[steps.len() - 1]) == Seq::<(bool, u32)>::empty());
        assert(dispatched_presses(steps) =~= dispatched_presses(d) + step_presses(steps.last()));
    }
}

/// The pointer steps of a pointer source dispatch exactly the presses and releases its
/// actions ask for, in the same order and each with its action's own button, wherever the
/// pointer starts; moves and pauses press nothing.
pub proof fn lemma_pointer_steps_keep_buttons(acts: Seq<PointerAction>, x: i32, y: i32)
    ensures
        dispatched_presses(pointer_steps(acts, x, y)) == requested_presses(acts),
    decreases acts.len(),
{
    if acts.len() > 0 {
        let p = pointer_pos(acts.drop_last(), x, y);
        lemma_pointer_steps_keep_buttons(acts.drop_last(), x, y);
        let last = pointer_action_steps(acts.last(), p.0, p.1);
        lemma_dispatched_presses_concat(pointer_steps(acts.drop_last(), x, y), last);
        match acts.last() {
            PointerAction::PointerDown { button } => {
                assert(last.drop_last() =~= Seq::<ActionStep>::empty());
                assert(dispatched_presses(last.drop_last()) =~= Seq::<(bool, u32)>::empty());
                assert(step_presses(last.last()) =~= seq![(true, button)]);
                assert(dispatched_presses(last) =~= seq![(true, button)]);
            },
            PointerAction::PointerUp { button } => {
                assert(last.drop_last() =~= Seq::<ActionStep>::empty());
                assert(dispatched_presses(last.drop_last()) =~= Seq::<(bool, u32)>::empty());
                assert(step_presses(last.last()) =~= seq![(false, button)]);
                assert(dispatched_presses(last) =~= seq![(false, button)]);
            },
            _ => {
                lemma_presses_of_short(last);
            },
        }
    }
}

/// A press or release goes to where the pointer is: after any pointer actions, a
/// `pointerDown` or `pointerUp` adds one step, a `Down` or `Up` event with the action's
/// button at the position the earlier actions left the pointer at.
pub proof fn lemma_press_at_pointer(acts: Seq<PointerAction>, x: i32, y: i32, button: u32, down: bool)
    ensures
        ({
            let a = if down {
                PointerAction::PointerDown { button }
            } else {
                PointerAction::PointerUp { button }
            };
            let p = pointer_pos(acts, x, y);
            &&& pointer_steps(acts.push(a), x, y) == pointer_steps(acts, x, y).push(
                ActionStep::Pointer {
                    event: if down {
                        PointerEventType::Down
                    } else {
                        PointerEventType::Up
                    },
                    x: p.0,
                    y: p.1,
                    button,
                },
            )
            &&& pointer_pos(acts.push(a), x, y) == p
        }),
{
    let a = if down {
        PointerAction::PointerDown { button }
    } else {
        PointerAction::PointerUp { button }
    };
    assert(acts.push(a).drop_last() =~= acts);
}

/// A pointer move takes the pointer to the move's target: the position after it is its
/// `x` and `y`, wherever the pointer was.
pub proof fn lemma_move_sets_pointer(acts: Seq<PointerAction>, x: i32, y: i32, nx: i32, ny: i32, duration: Option<u64>)
    ensures
        pointer_pos(acts.push(PointerAction::PointerMove { x: nx, y: ny, duration }), x, y) == (nx, ny),
{
    assert(acts.push(PointerAction::PointerMove { x: nx, y: ny, duration }).drop_last() =~= acts);
}

/// The presses and releases that the input sources of a request ask for, in order: those
/// of each pointer source; key, wheel and pause sources press no pointer button.
pub open spec fn request_presses(seqs: Seq<ActionSequence>) -> Seq<(bool, u32)>
    decreases seqs.len(),
{
    if seqs.len() == 0 {
        Seq::empty()
    } else {
        request_presses(seqs.drop_last()) + match seqs.last() {
            ActionSequence::Pointer { actions, .. } => requested_presses(actions@),
            _ => Seq::empty(),
        }
    }
}

proof fn lemma_pauses_press_nothing(d: Option<u64>)
    ensures
        dispatched_presses(pause_steps(d)) == Seq::<(bool, u32)>::empty(),
        dispatched_presses(lead_in_steps(d)) == Seq::<(bool, u32)>::empty(),
{
    lemma_presses_of_short(pause_steps(d));
    lemma_presses_of_short(lead_in_steps(d));
}

proof fn lemma_key_steps_press_nothing(acts: Seq<KeyAction>)
    ensures
        dispatched_presses(key_steps(acts)) == Seq::<(bool, u32)>::empty(),
    decreases acts.len(),
{
    if acts.len() > 0 {
        lemma_key_steps_press_nothing(acts.drop_last());
        lemma_dispatched_presses_concat(key_steps(acts.drop_last()), key_action_steps(acts.last()));
        match acts.last() {
            KeyAction::Pause { duration } => lemma_pauses_press_nothing(duration),
            _ => lemma_presses_of_short(key_action_steps(acts.last())),
        }
    }
}

proof fn lemma_wheel_steps_press_nothing(acts: Seq<WheelAction>)
    ensures
        dispatched_presses(wheel_steps(acts)) == Seq::<(bool, u32)>::empty(),
    decreases acts.len(),
{
    if acts.len() > 0 {
        lemma_wheel_steps_press_nothing(acts.drop_last());
        lemma_dispatched_presses_concat(wheel_steps(acts.drop_last()), wheel_action_steps(acts.last()));
        match acts.last() {
            WheelAction::Pause { duration } => lemma_pauses_press_nothing(duration),
            WheelAction::Scroll { duration, .. } => {
                let w = wheel_action_steps(acts.last());
                assert forall|i: int| 0 <= i < w.len() implies #[trigger] step_presses(w[i]) == Seq::<(bool, u32)>::empty() by {}
                lemma_presses_of_short(w);
            },
        }
    }
}

proof fn lemma_pause_only_steps_press_nothing(acts: Seq<PauseAction>)
    ensures
        dispatched_presses(pause_only_steps(acts)) == Seq::<(bool, u32)>::empty(),
    decreases acts.len(),
{
    if acts.len() > 0 {
        lemma_pause_only_steps_press_nothing(acts.drop_last());
        lemma_dispatched_presses_concat(pause_only_steps(acts.drop_last()), pause_action_steps(acts.last()));
        match acts.last() {
            PauseAction::Pause { duration } => lemma_pauses_press_nothing(duration),
        }
    }
}

/// The steps planned for a whole request dispatch exactly the presses and releases that
/// its pointer sources ask for, in order and each with its action's own button.
pub proof fn lemma_plan_keeps_buttons(seqs: Seq<ActionSequence>)
    ensures
        dispatched_presses(plan_steps(seqs)) == request_presses(seqs),
    decreases seqs.len(),
{
    if seqs.len() > 0 {
        let p = plan_pos(seqs.drop_last());
        lemma_plan_keeps_buttons(seqs.drop_last());
        lemma_dispatched_presses_concat(plan_steps(seqs.drop_last()), sequence_steps(seqs.last(), p.0, p.1));
        match seqs.last() {
            ActionSequence::Key { actions, .. } => lemma_key_steps_press_nothing(actions@),
            ActionSequence::Pointer { actions, .. } => lemma_pointer_steps_keep_buttons(actions@, p.0, p.1),
            ActionSequence::Wheel { actions, .. } => lemma_wheel_steps_press_nothing(actions@),
            ActionSequence::NoInput { actions, .. } => lemma_pause_only_steps_press_nothing(actions@),
        }
    }
}

} // verus!
