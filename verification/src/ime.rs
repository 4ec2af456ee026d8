//! The software-keyboard bridge: after the user enters text on the 3DS
//! keyboard applet, a fixed sequence of synthetic key events replaces the
//! contents of the focused egui text field.
use vstd::prelude::*;

verus! {

/// Where the keyboard bridge is in its replay sequence.
#[derive(Clone, Copy, PartialEq, Eq, Structural, Debug)]
pub enum ImeStage {
    Nothing,
    SelectAllDown,
    SelectAllUp,
    BackSpaceDown,
    BackSpaceUp,
    PutText,
    EscapeDown,
    EscapeUp,
}

/// The stage that follows `s`: the replay runs `SelectAllDown` through
/// `EscapeUp` in order and then rests at `Nothing`.
pub open spec fn stage_after(s: ImeStage) -> ImeStage {
    match s {
        ImeStage::Nothing => ImeStage::Nothing,
        ImeStage::SelectAllDown => ImeStage::SelectAllUp,
        ImeStage::SelectAllUp => ImeStage::BackSpaceDown,
        ImeStage::BackSpaceDown => ImeStage::BackSpaceUp,
        ImeStage::BackSpaceUp => ImeStage::PutText,
        ImeStage::PutText => ImeStage::EscapeDown,
        ImeStage::EscapeDown => ImeStage::EscapeUp,
        ImeStage::EscapeUp => ImeStage::Nothing,
    }
}

impl ImeStage {
    /// The stage a confirmed keyboard entry starts replaying from.
    pub fn start() -> (r: ImeStage)
        ensures
            r == ImeStage::SelectAllDown,
    {
        ImeStage::SelectAllDown
    }

    /// The stage a cancelled keyboard entry starts replaying from.
    pub fn cancel() -> (r: ImeStage)
        ensures
            r == ImeStage::EscapeDown,
    {
        ImeStage::EscapeDown
    }

    /// Advances the replay by one frame.
    pub fn next(self) -> (r: Self)
        ensures
            r == stage_after(self),
    {
        match self {
            ImeStage::Nothing => ImeStage::Nothing,
            ImeStage::SelectAllDown => ImeStage::SelectAllUp,
            ImeStage::SelectAllUp => ImeStage::BackSpaceDown,
            ImeStage::BackSpaceDown => ImeStage::BackSpaceUp,
            ImeStage::BackSpaceUp => ImeStage::PutText,
            ImeStage::PutText => ImeStage::EscapeDown,
            ImeStage::EscapeDown => ImeStage::EscapeUp,
            ImeStage::EscapeUp => ImeStage::Nothing,
        }
    }
}


/// The keys the keyboard bridge synthesises.
#[derive(Clone, Copy, PartialEq, Eq, Structural, Debug)]
pub enum ImeKey {
    A,
    Backspace,
    Escape,
}

/// An input event produced by the keyboard bridge for egui.
#[derive(PartialEq, Eq, Debug)]
pub enum ImeEvent {
    /// A key press (`pressed`) or release; `command` is the platform command
    /// modifier (so `A` with `command` is "select all").
    Key { key: ImeKey, pressed: bool, command: bool },
    /// Text typed into the focused widget.
    Text(String),
}

/// The key event that stage `s` emits, if any.
pub open spec fn stage_key_event(s: ImeStage) -> Option<ImeEvent> {
    match s {
        ImeStage::Nothing => None,
        ImeStage::SelectAllDown => Some(ImeEvent::Key { key: ImeKey::A, pressed: true, command: true }),
        ImeStage::SelectAllUp => Some(ImeEvent::Key { key: ImeKey::A, pressed: false, command: true }),
        ImeStage::BackSpaceDown => Some(ImeEvent::Key { key: ImeKey::Backspace, pressed: true, command: false }),
        ImeStage::BackSpaceUp => Some(ImeEvent::Key { key: ImeKey::Backspace, pressed: false, command: false }),
        ImeStage::PutText => None,
        ImeStage::EscapeDown => Some(ImeEvent::Key { key: ImeKey::Escape, pressed: true, command: false }),
        ImeStage::EscapeUp => Some(ImeEvent::Key { key: ImeKey::Escape, pressed: false, command: false }),
    }
}

/// The events `add_event` appends for stage `s`: its key event, if any.
pub open spec fn stage_key_events(s: ImeStage) -> Seq<ImeEvent> {
    match stage_key_event(s) {
        Some(e) => seq![e],
        None => Seq::empty(),
    }
}

impl ImeStage {
    /// Appends the key event of this stage to `events`; returns whether this
    /// is the stage at which the entered text must be sent instead.
    pub fn add_event(self, events: &mut Vec<ImeEvent>) -> (r: bool)
        ensures
            final(events)@ == old(events)@ + stage_key_events(self),
            r == (self == ImeStage::PutText),
    {
        match self {
            ImeStage::Nothing => false,
            ImeStage::SelectAllDown => {
                events.push(ImeEvent::Key { key: ImeKey::A, pressed: true, command: true });
                false
            },
            ImeStage::SelectAllUp => {
                events.push(ImeEvent::Key { key: ImeKey::A, pressed: false, command: true });
                false
            },
            ImeStage::BackSpaceDown => {
                events.push(ImeEvent::Key { key: ImeKey::Backspace, pressed: true, command: false });
                false
            },
            ImeStage::BackSpaceUp => {
                events.push(ImeEvent::Key { key: ImeKey::Backspace, pressed: false, command: false });
                false
            },
            ImeStage::PutText => true,
            ImeStage::EscapeDown => {
                events.push(ImeEvent::Key { key: ImeKey::Escape, pressed: true, command: false });
                false
            },
            ImeStage::EscapeUp => {
                events.push(ImeEvent::Key { key: ImeKey::Escape, pressed: false, command: false });
                false
            },
        }
    }
}


/// The view of an optional string as an optional sequence of characters.
pub open spec fn opt_text(o: Option<String>) -> Option<Seq<char>> {
    match o {
        Some(s) => Some(s@),
        None => None,
    }
}

/// The text of `o`, or the empty text when there is none.
pub open spec fn text_or_empty(o: Option<Seq<char>>) -> Seq<char> {
    match o {
        Some(t) => t,
        None => Seq::empty(),
    }
}

/// Whether `e` is a text event carrying exactly `t`.
pub open spec fn is_text_event(e: ImeEvent, t: Seq<char>) -> bool {
    e matches ImeEvent::Text(s) && s@ == t
}

/// What a widget reported about itself when it was clicked.
#[derive(Debug)]
pub struct WidgetInfo {
    /// The text the widget currently holds, if it is a text field.
    pub current_text_value: Option<String>,
    /// The widget's numeric value, written out as text, if it has one.
    pub value: Option<String>,
}

/// An event from egui's platform output, as far as the keyboard bridge
/// reads it.
#[derive(Debug)]
pub enum OutputEvent {
    Clicked(WidgetInfo),
    Other,
}

/// The widget of the last click in `events`, if any.
pub open spec fn last_click(events: Seq<OutputEvent>) -> Option<WidgetInfo>
    decreases events.len(),
{
    if events.len() == 0 {
        None
    } else {
        match events.last() {
            OutputEvent::Clicked(w) => Some(w),
            OutputEvent::Other => last_click(events.drop_last()),
        }
    }
}

/// The text the keyboard applet opens with: the remembered text when it is
/// not empty, otherwise the remembered numeric value.
pub open spec fn initial_text(text: Option<Seq<char>>, value: Option<Seq<char>>) -> Option<Seq<char>> {
    match text {
        Some(t) => if t.len() > 0 { Some(t) } else { value },
        None => value,
    }
}

/// The keyboard starts with the remembered text when that is present and
/// not empty; otherwise with the remembered numeric value; it starts with
/// nothing only when neither is there.
pub proof fn lemma_initial_text(text: Option<Seq<char>>, value: Option<Seq<char>>)
    ensures
        text is Some && text.unwrap().len() > 0 ==> initial_text(text, value) == text,
        !(text is Some && text.unwrap().len() > 0) ==> initial_text(text, value) == value,
        initial_text(text, value) is None <==> (!(text is Some && text.unwrap().len() > 0)
            && value is None),
{
}

/// Events that are not clicks change nothing of what is remembered; a
/// click appended at the end is the one remembered.
pub proof fn lemma_last_click_push(events: Seq<OutputEvent>, e: OutputEvent)
    ensures
        e is Other ==> last_click(events.push(e)) == last_click(events),
        e is Clicked ==> last_click(events.push(e)) == Some(e->0),
{
    assert(events.push(e).drop_last() =~= events);
}

/// Every click of a frame is seen: the click that no other click follows,
/// wherever it stands, is the one remembered.
pub proof fn lemma_last_click_is_last(events: Seq<OutputEvent>, i: int)
    requires
        0 <= i < events.len(),
        events[i] is Clicked,
        forall|j: int| i < j < events.len() ==> events[j] is Other,
    ensures
        last_click(events) == Some(events[i]->0),
    decreases events.len(),
{
    if i < events.len() - 1 {
        let prefix = events.drop_last();
        lemma_last_click_is_last(prefix, i);
    }
}

/// A frame without clicks remembers no click.
pub proof fn lemma_no_click(events: Seq<OutputEvent>)
    requires
        forall|j: int| 0 <= j < events.len() ==> events[j] is Other,
    ensures
        last_click(events) is None,
    decreases events.len(),
{
    if events.len() > 0 {
        lemma_no_click(events.drop_last());
    }
}

/// A request to open the software keyboard.
#[derive(Debug)]
pub struct KeyboardRequest {
    /// The text the keyboard starts out with.
    pub initial_text: Option<String>,
}

/// The state of the keyboard bridge between frames.
pub struct ImeState {
    stage: ImeStage,
    output: bool,
    current_text: Option<String>,
    current_float: Option<String>,
}

impl ImeState {
    /// The replay stage.
    pub closed spec fn stage_of(&self) -> ImeStage {
        self.stage
    }

    /// Whether egui asked for text input in the last frame.
    pub closed spec fn ime_open(&self) -> bool {
        self.output
    }

    /// The remembered text of the last clicked widget.
    pub closed spec fn text(&self) -> Option<Seq<char>> {
        opt_text(self.current_text)
    }

    /// The remembered numeric value (as text) of the last clicked widget.
    pub closed spec fn value_text(&self) -> Option<Seq<char>> {
        opt_text(self.current_float)
    }

    pub fn new() -> (r: ImeState)
        ensures
            r.stage_of() == ImeStage::Nothing,
            !r.ime_open(),
            r.text() == None::<Seq<char>>,
            r.value_text() == None::<Seq<char>>,
    {
        ImeState { stage: ImeStage::Nothing, output: false, current_text: None, current_float: None }
    }

    /// The current replay stage.
    pub fn stage(&self) -> (r: ImeStage)
        ensures
            r == self.stage_of(),
    {
        self.stage
    }

    /// Decides whether the software keyboard must be opened now: when egui
    /// wants text input and no replay is running. The remembered text and
    /// value are consumed to seed it.
    pub fn keyboard_request(&mut self) -> (r: Option<KeyboardRequest>)
        ensures
            old(self).ime_open() && old(self).stage_of() == ImeStage::Nothing ==> {
                &&& r matches Some(req)
                &&& opt_text(req.initial_text) == initial_text(old(self).text(), old(self).value_text())
                &&& old(self).text() is Some && old(self).text().unwrap().len() > 0 ==> opt_text(
                    req.initial_text,
                ) == old(self).text()
                &&& !(old(self).text() is Some && old(self).text().unwrap().len() > 0) ==> opt_text(
                    req.initial_text,
                ) == old(self).value_text()
                &&& final(self).text() == None::<Seq<char>>
                &&& final(self).value_text() == None::<Seq<char>>
                &&& final(self).stage_of() == old(self).stage_of()
                &&& final(self).ime_open() == old(self).ime_open()
            },
            !(old(self).ime_open() && old(self).stage_of() == ImeStage::Nothing) ==> {
                &&& r is None
                &&& final(self).text() == old(self).text()
                &&& final(self).value_text() == old(self).value_text()
                &&& final(self).stage_of() == old(self).stage_of()
                &&& final(self).ime_open() == old(self).ime_open()
            },
    {
        if self.output && self.stage == ImeStage::Nothing {
            let text = self.current_text.take();
            let value = self.current_float.take();
            let initial = match text {
                Some(t) => if t.as_str().is_empty() { value } else { Some(t) },
                None => value,
            };
            proof {
                lemma_initial_text(old(self).text(), old(self).value_text());
            }
            Some(KeyboardRequest { initial_text: initial })
        } else {
            None
        }
    }

    /// Takes the outcome of the keyboard applet: the entered text, and
    /// whether it was confirmed (rather than cancelled).
    pub fn keyboard_closed(&mut self, text: String, confirmed: bool)
        ensures
            confirmed ==> final(self).text() == Some(text@),
            confirmed ==> final(self).stage_of() == ImeStage::SelectAllDown,
            !confirmed ==> final(self).text() == old(self).text(),
            !confirmed ==> final(self).stage_of() == ImeStage::EscapeDown,
            final(self).value_text() == old(self).value_text(),
            final(self).ime_open() == old(self).ime_open(),
    {
        if confirmed {
            self.current_text = Some(text);
            self.stage = ImeStage::start();
        } else {
            self.stage = ImeStage::cancel();
        }
    }

    /// Runs one frame of the replay: appends this stage's event to `events`
    /// (the entered text at `PutText`) and advances the stage.
    pub fn step(&mut self, events: &mut Vec<ImeEvent>)
        ensures
            old(self).stage_of() != ImeStage::PutText ==> final(events)@ == old(events)@
                + stage_key_events(old(self).stage_of()),
            old(self).stage_of() != ImeStage::PutText ==> final(self).text() == old(self).text(),
            old(self).stage_of() == ImeStage::PutText ==> {
                &&& final(events)@.len() == old(events)@.len() + 1
                &&& final(events)@.drop_last() == old(events)@
                &&& is_text_event(final(events)@.last(), text_or_empty(old(self).text()))
                &&& final(self).text() == None::<Seq<char>>
            },
            final(self).stage_of() == stage_after(old(self).stage_of()),
            final(self).value_text() == old(self).value_text(),
            final(self).ime_open() == old(self).ime_open(),
    {
        if self.stage.add_event(events) {
            let text = match self.current_text.take() {
                Some(t) => t,
                None => String::new(),
            };
            events.push(ImeEvent::Text(text));
        }
        self.stage = self.stage.next();
    }

    /// Reads egui's output after the frame: remembers the last clicked
    /// widget's text and value (only while no replay is running) and whether
    /// egui wants text input.
    pub fn part_b(&mut self, events: &Vec<OutputEvent>, ime_open: bool)
        ensures
            final(self).ime_open() == ime_open,
            final(self).stage_of() == old(self).stage_of(),
            old(self).stage_of() == ImeStage::Nothing && last_click(events@) is Some ==> {
                &&& final(self).text() == opt_text(last_click(events@).unwrap().current_text_value)
                &&& final(self).value_text() == opt_text(last_click(events@).unwrap().value)
            },
            !(old(self).stage_of() == ImeStage::Nothing && last_click(events@) is Some) ==> {
                &&& final(self).text() == old(self).text()
                &&& final(self).value_text() == old(self).value_text()
            },
            forall|i: int|
                0 <= i < events@.len() && old(self).stage_of() == ImeStage::Nothing
                    && #[trigger] events@[i] is Clicked && (forall|j: int|
                    i < j < events@.len() ==> events@[j] is Other) ==> {
                    &&& final(self).text() == opt_text(events@[i]->0.current_text_value)
                    &&& final(self).value_text() == opt_text(events@[i]->0.value)
                },
            (forall|j: int| 0 <= j < events@.len() ==> events@[j] is Other) ==> {
                &&& final(self).text() == old(self).text()
                &&& final(self).value_text() == old(self).value_text()
            },
    {
        let mut i: usize = 0;
        while i < events.len()
            invariant
                0 <= i <= events@.len(),
                self.stage == old(self).stage,
                self.output == old(self).output,
                old(self).stage == ImeStage::Nothing && last_click(events@.take(i as int)) is Some ==> {
                    &&& opt_text(self.current_text) == opt_text(last_click(events@.take(i as int)).unwrap().current_text_value)
                    &&& opt_text(self.current_float) == opt_text(last_click(events@.take(i as int)).unwrap().value)
                },
                !(old(self).stage == ImeStage::Nothing && last_click(events@.take(i as int)) is Some) ==> {
                    &&& opt_text(self.current_text) == opt_text(old(self).current_text)
                    &&& opt_text(self.current_float) == opt_text(old(self).current_float)
                },
            decreases events@.len() - i,
        {
            proof {
                assert(events@.take(i + 1).drop_last() =~= events@.take(i as int));
            }
            match &events[i] {
                OutputEvent::Clicked(w) => {
                    if self.stage == ImeStage::Nothing {
                        self.current_text = match &w.current_text_value {
                            Some(s) => Some(s.clone()),
                            None => None,
                        };
                        self.current_float = match &w.value {
                            Some(s) => Some(s.clone()),
                            None => None,
                        };
                    }
                },
                OutputEvent::Other => {},
            }
            i = i + 1;
        }
        proof {
            assert(events@.take(events@.len() as int) =~= events@);
            assert forall|i: int|
                0 <= i < events@.len() && #[trigger] events@[i] is Clicked && (forall|j: int|
                    i < j < events@.len() ==> events@[j] is Other) implies last_click(events@)
                == Some(events@[i]->0) by {
                lemma_last_click_is_last(events@, i);
            }
            if forall|j: int| 0 <= j < events@.len() ==> events@[j] is Other {
                lemma_no_click(events@);
            }
        }
        self.output = ime_open;
    }
}


/// The stage reached from `s` after `n` frames.
pub open spec fn advance(s: ImeStage, n: nat) -> ImeStage
    decreases n,
{
    if n == 0 {
        s
    } else {
        advance(stage_after(s), (n - 1) as nat)
    }
}

/// The key events emitted during `n` frames starting at stage `s`.
pub open spec fn replay_keys(s: ImeStage, n: nat) -> Seq<ImeEvent>
    decreases n,
{
    if n == 0 {
        Seq::empty()
    } else {
        stage_key_events(s) + replay_keys(stage_after(s), (n - 1) as nat)
    }
}

/// Every replay comes to rest: from any stage, after seven or more frames
/// the bridge is at `Nothing`, and it stays there.
pub proof fn lemma_replay_terminates(s: ImeStage, n: nat)
    requires
        n >= 7,
    ensures
        advance(s, n) == ImeStage::Nothing,
    decreases n,
{
    if s == ImeStage::Nothing {
        lemma_rest_is_stable(n);
    } else {
        lemma_advance_split(s, 7, (n - 7) as nat);
        reveal_with_fuel(advance, 8);
        lemma_rest_is_stable((n - 7) as nat);
    }
}

/// At rest the bridge emits nothing and stays at rest.
pub proof fn lemma_rest_is_stable(n: nat)
    ensures
        advance(ImeStage::Nothing, n) == ImeStage::Nothing,
        replay_keys(ImeStage::Nothing, n) == Seq::<ImeEvent>::empty(),
    decreases n,
{
    if n > 0 {
        lemma_rest_is_stable((n - 1) as nat);
        assert(replay_keys(ImeStage::Nothing, n) =~= Seq::<ImeEvent>::empty());
    }
}

/// Advancing `a` frames and then `b` frames is advancing `a + b` frames.
pub proof fn lemma_advance_split(s: ImeStage, a: nat, b: nat)
    ensures
        advance(advance(s, a), b) == advance(s, a + b),
    decreases a,
{
    if a > 0 {
        lemma_advance_split(stage_after(s), (a - 1) as nat, b);
    }
}

/// No key is left held down: whenever a stage presses a key, the next stage
/// releases the same key with the same modifier.
pub proof fn lemma_press_then_release(s: ImeStage)
    ensures
        match stage_key_event(s) {
            Some(ImeEvent::Key { key, pressed: true, command }) => stage_key_event(stage_after(s))
                == Some(ImeEvent::Key { key: key, pressed: false, command: command }),
            _ => true,
        },
{
}

/// A confirmed entry (replay from `SelectAllDown`) selects all text, deletes
/// it, sends the new text at the fifth frame, then presses Escape to leave
/// the field, and is at rest after seven frames.
pub proof fn lemma_confirmed_replay()
    ensures
        advance(ImeStage::SelectAllDown, 4) == ImeStage::PutText,
        advance(ImeStage::SelectAllDown, 7) == ImeStage::Nothing,
        replay_keys(ImeStage::SelectAllDown, 4) == seq![
            ImeEvent::Key { key: ImeKey::A, pressed: true, command: true },
            ImeEvent::Key { key: ImeKey::A, pressed: false, command: true },
            ImeEvent::Key { key: ImeKey::Backspace, pressed: true, command: false },
            ImeEvent::Key { key: ImeKey::Backspace, pressed: false, command: false },
        ],
        replay_keys(ImeStage::PutText, 3) == seq![
            ImeEvent::Key { key: ImeKey::Escape, pressed: true, command: false },
            ImeEvent::Key { key: ImeKey::Escape, pressed: false, command: false },
        ],
{
    reveal_with_fuel(advance, 8);
    reveal_with_fuel(replay_keys, 5);
    assert(replay_keys(ImeStage::SelectAllDown, 4) =~= seq![
        ImeEvent::Key { key: ImeKey::A, pressed: true, command: true },
        ImeEvent::Key { key: ImeKey::A, pressed: false, command: true },
        ImeEvent::Key { key: ImeKey::Backspace, pressed: true, command: false },
        ImeEvent::Key { key: ImeKey::Backspace, pressed: false, command: false },
    ]);
    assert(replay_keys(ImeStage::EscapeUp, 1) =~= seq![
        ImeEvent::Key { key: ImeKey::Escape, pressed: false, command: false },
    ]);
    assert(replay_keys(ImeStage::EscapeDown, 2) =~= seq![
        ImeEvent::Key { key: ImeKey::Escape, pressed: true, command: false },
        ImeEvent::Key { key: ImeKey::Escape, pressed: false, command: false },
    ]);
    assert(replay_keys(ImeStage::PutText, 3) =~= seq![
        ImeEvent::Key { key: ImeKey::Escape, pressed: true, command: false },
        ImeEvent::Key { key: ImeKey::Escape, pressed: false, command: false },
    ]);
}

/// A cancelled entry only presses and releases Escape, never sends text, and
/// is at rest after two frames.
pub proof fn lemma_cancelled_replay()
    ensures
        advance(ImeStage::EscapeDown, 1) != ImeStage::PutText,
        advance(ImeStage::EscapeDown, 2) == ImeStage::Nothing,
        replay_keys(ImeStage::EscapeDown, 2) == seq![
            ImeEvent::Key { key: ImeKey::Escape, pressed: true, command: false },
            ImeEvent::Key { key: ImeKey::Escape, pressed: false, command: false },
        ],
{
    reveal_with_fuel(advance, 3);
    reveal_with_fuel(replay_keys, 3);
    assert(replay_keys(ImeStage::EscapeDown, 2) =~= seq![
        ImeEvent::Key { key: ImeKey::Escape, pressed: true, command: false },
        ImeEvent::Key { key: ImeKey::Escape, pressed: false, command: false },
    ]);
}

} // verus!
