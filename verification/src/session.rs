//! An interpretation in progress: it writes the document step by step, and stops where work
//! is to be done outside, to go on when told how that work ended.

use crate::error::{Error, ErrorView};
use crate::header::ShowHeadersStrategy;
use crate::interpreter::{Interpreter, Settings};
use crate::plan::{plan_msg, plan_part};
use crate::mime::Message;
use crate::piece::{pieces_view, Piece, PieceView};
use crate::text::{chars_of, string_from_chars, trim_end, trimmed_len};
use vstd::prelude::*;
use vstd::slice::slice_to_vec;
use vstd::string::*;

verus! {

/// The document as written so far, and where the bodies that are still open start in it.
pub struct Canvas {
    pub out: Seq<char>,
    pub marks: Seq<int>,
}

/// Whether the marks are positions in the text, in rising order.
pub open spec fn canvas_wf(c: Canvas) -> bool {
    &&& forall|i: int| 0 <= i < c.marks.len() ==> 0 <= #[trigger] c.marks[i] <= c.out.len()
    &&& forall|i: int, j: int| 0 <= i <= j < c.marks.len() ==> c.marks[i] <= c.marks[j]
}

/// The canvas after the body that was opened last is closed: the whitespace that the body ends
/// with is dropped, and a line break added. Where no body is open, the whole text is the body.
pub open spec fn close_body(c: Canvas) -> Canvas {
    let m = if c.marks.len() > 0 {
        c.marks.last()
    } else {
        0
    };
    Canvas {
        out: c.out.take(m) + trim_end(c.out.skip(m)) + "\n"@,
        marks: if c.marks.len() > 0 {
            c.marks.drop_last()
        } else {
            c.marks
        },
    }
}

/// Whether a step is work to be done outside.
pub open spec fn is_effect(p: PieceView) -> bool {
    p is Save || p is Verify || p is Decrypt
}

/// The canvas after a step that is no work outside.
pub open spec fn draw(c: Canvas, p: PieceView) -> Canvas {
    match p {
        PieceView::Text(s) => Canvas { out: c.out + s, marks: c.marks },
        PieceView::Open => Canvas { out: c.out, marks: c.marks.push(c.out.len() as int) },
        PieceView::Close => close_body(c),
        _ => c,
    }
}

/// Takes the steps up to the first that is work outside: the canvas then, and the steps left.
pub open spec fn settle(c: Canvas, pending: Seq<PieceView>) -> (Canvas, Seq<PieceView>)
    decreases pending.len(),
{
    if pending.len() == 0 || is_effect(pending[0]) {
        (c, pending)
    } else {
        settle(draw(c, pending[0]), pending.skip(1))
    }
}

/// The empty canvas.
pub open spec fn blank() -> Canvas {
    Canvas { out: Seq::empty(), marks: Seq::empty() }
}

/// The text that a plan writes, the work outside passed over.
pub open spec fn rendered(plan: Seq<PieceView>) -> Seq<char> {
    render_onto(blank(), plan).out
}

/// The canvas after every step of `plan`, the work outside passed over.
pub open spec fn render_onto(c: Canvas, plan: Seq<PieceView>) -> Canvas
    decreases plan.len(),
{
    if plan.len() == 0 {
        c
    } else {
        render_onto(draw(c, plan[0]), plan.skip(1))
    }
}

/// What the caller is asked to do.
#[derive(Clone, Debug, PartialEq, Eq)]
pub enum Action {
    /// Write `data` to the file at `path`.
    Save { path: String, data: Vec<u8> },
    /// Run `command` with `signature` as its input; it fails where the signature does not hold.
    Verify { command: String, signature: Vec<u8> },
    /// Run `command` with `payload` as its input, and parse what it prints as a message.
    Decrypt { command: String, payload: Vec<u8> },
    /// Nothing more: this is the document.
    Done(String),
}

/// An action as a mathematical value.
pub enum ActionView {
    Save { path: Seq<char>, data: Seq<u8> },
    Verify { command: Seq<char>, signature: Seq<u8> },
    Decrypt { command: Seq<char>, payload: Seq<u8> },
    Done(Seq<char>),
}

impl View for Action {
    type V = ActionView;

    open spec fn view(&self) -> ActionView {
        match self {
            Action::Save { path, data } => ActionView::Save { path: path@, data: data@ },
            Action::Verify { command, signature } => ActionView::Verify {
                command: command@,
                signature: signature@,
            },
            Action::Decrypt { command, payload } => ActionView::Decrypt {
                command: command@,
                payload: payload@,
            },
            Action::Done(text) => ActionView::Done(text@),
        }
    }
}

/// What the caller reports.
#[derive(Debug, PartialEq, Eq)]
pub enum Event {
    /// Nothing yet: the interpretation starts.
    Start,
    /// The attachment was written.
    Saved,
    /// The signature holds.
    Verified,
    /// The part was decrypted, and this message parsed from what came out.
    Decrypted(Message),
    /// The part was decrypted, but what came out is no message.
    Unparsed,
    /// The work failed.
    Failed,
}

/// The action that asks for the work of a step. A step that is no work asks for nothing, which
/// is told as the end of an empty document.
pub open spec fn action_of(p: PieceView) -> ActionView {
    match p {
        PieceView::Save { path, data } => ActionView::Save { path, data },
        PieceView::Verify { command, signature } => ActionView::Verify { command, signature },
        PieceView::Decrypt { command, payload } => ActionView::Decrypt { command, payload },
        _ => ActionView::Done(Seq::empty()),
    }
}

/// The error that the failure of a step's work is.
pub open spec fn error_of(p: PieceView) -> ErrorView {
    match p {
        PieceView::Save { path, data } => ErrorView::WriteAttachmentError(path),
        PieceView::Verify { command, signature } => ErrorView::VerifyPartError,
        _ => ErrorView::DecryptPartError,
    }
}

/// The state of an interpretation as a mathematical value.
pub struct SessionView {
    /// The settings of the interpreter.
    pub settings: Settings,
    /// The headers that documents show; `None` where only bodies are interpreted.
    pub head: Option<ShowHeadersStrategy>,
    /// The document so far.
    pub canvas: Canvas,
    /// The steps still to take, in order.
    pub pending: Seq<PieceView>,
    /// The step whose work the caller was asked to do, until it reports.
    pub waiting: Option<PieceView>,
}

/// Goes on to the next work outside, or to the end.
pub open spec fn proceed(s: SessionView) -> (SessionView, ActionView) {
    let (canvas, rest) = settle(s.canvas, s.pending);
    if rest.len() == 0 {
        (SessionView { canvas, pending: rest, waiting: None, ..s }, ActionView::Done(canvas.out))
    } else {
        (
            SessionView { canvas, pending: rest.skip(1), waiting: Some(rest[0]), ..s },
            action_of(rest[0]),
        )
    }
}

/// Whether `event` reports the success of the work of the step `p`.
pub open spec fn answers(p: PieceView, event: Event) -> bool {
    (p is Save && event is Saved) || (p is Verify && event is Verified) || (p is Decrypt
        && event is Decrypted)
}

/// The steps that take the place of the step whose work succeeded: the interpretation of the
/// body of the decrypted message, under the same settings; nothing after other work.
pub open spec fn outcome(s: SessionView, event: Event) -> Seq<PieceView> {
    match event {
        Event::Decrypted(msg) => plan_part(s.settings, s.head, msg, 0),
        _ => Seq::empty(),
    }
}

/// The state after `event`, and what the caller is told. While no work is asked for, any
/// event makes the interpretation go on. While work is asked for: its success makes the
/// interpretation go on, with what came out of it; its failure ends the interpretation with
/// the error of that work, and so does a decrypted part that holds no message, with the error
/// of parsing; any other event has the work asked for again.
pub open spec fn step_spec(s: SessionView, event: Event) -> (SessionView, Result<
    ActionView,
    ErrorView,
>) {
    match s.waiting {
        None => {
            let (next, action) = proceed(s);
            (next, Ok(action))
        },
        Some(p) => if answers(p, event) {
            let (next, action) = proceed(
                SessionView { pending: outcome(s, event) + s.pending, waiting: None, ..s },
            );
            (next, Ok(action))
        } else if event is Failed {
            (s, Err(error_of(p)))
        } else if p is Decrypt && event is Unparsed {
            (s, Err(ErrorView::ParseRawEmailError))
        } else {
            (s, Ok(action_of(p)))
        },
    }
}

/// The steps that wait, from the top down: the next one is kept last.
pub open spec fn from_top(queue: Seq<Piece>) -> Seq<PieceView>
    decreases queue.len(),
{
    if queue.len() == 0 {
        Seq::empty()
    } else {
        seq![queue.last()@] + from_top(queue.drop_last())
    }
}

/// An interpretation in progress.
pub struct Session {
    interpreter: Interpreter,
    head: Option<ShowHeadersStrategy>,
    out: Vec<char>,
    marks: Vec<usize>,
    queue: Vec<Piece>,
    waiting: Option<Piece>,
}

impl View for Session {
    type V = SessionView;

    closed spec fn view(&self) -> SessionView {
        SessionView {
            settings: self.interpreter@,
            head: self.head,
            canvas: canvas_of(self.out@, self.marks@),
            pending: from_top(self.queue@),
            waiting: match self.waiting {
                Some(p) => Some(p@),
                None => None,
            },
        }
    }
}

/// The canvas that a text and a list of marks stand for.
pub open spec fn canvas_of(out: Seq<char>, marks: Seq<usize>) -> Canvas {
    Canvas { out, marks: marks.map_values(|m: usize| m as int) }
}

/// Takes one step on the canvas.
fn draw_now(out: &mut Vec<char>, marks: &mut Vec<usize>, p: &Piece)
    requires
        canvas_wf(canvas_of(old(out)@, old(marks)@)),
    ensures
        canvas_wf(canvas_of(final(out)@, final(marks)@)),
        canvas_of(final(out)@, final(marks)@) == draw(canvas_of(old(out)@, old(marks)@), p@),
{
    let ghost canvas = canvas_of(out@, marks@);
    match p {
        Piece::Text(s) => {
            let mut chars = chars_of(s.as_str());
            out.append(&mut chars);
        },
        Piece::Open => {
            marks.push(out.len());
            assert(canvas_of(out@, marks@).marks =~= canvas.marks.push(out.len() as int));
        },
        Piece::Close => {
            let ghost text = out@;
            let ghost before = marks@;
            let m: usize = match marks.pop() {
                Some(m) => m,
                None => 0,
            };
            assert(before.len() > 0 ==> m as int == canvas.marks.last());
            assert(canvas_of(out@, marks@).marks =~= close_body(canvas).marks);
            let k = trimmed_len(out, m);
            out.truncate(k);
            out.push('\n');
            assert(text.subrange(m as int, text.len() as int) == text.skip(m as int));
            assert(out@ =~= text.take(m as int) + trim_end(text.skip(m as int)) + "\n"@) by {
                reveal_strlit("\n");
                assert(text.take(k as int) =~= text.take(m as int) + text.subrange(
                    m as int,
                    k as int,
                ));
            }
            assert forall|i: int| 0 <= i < marks@.len() implies 0 <= #[trigger] canvas_of(
                out@,
                marks@,
            ).marks[i] <= out@.len() by {
                assert(canvas.marks[i] <= canvas.marks[before.len() - 1]);
            }
        },
        _ => {},
    }
}

/// Writes the text of a plan, the work outside passed over.
pub fn render(plan: &Vec<Piece>) -> (res: String)
    ensures
        res@ == rendered(pieces_view(plan@)),
{
    let mut out: Vec<char> = Vec::new();
    let mut marks: Vec<usize> = Vec::new();
    let mut i: usize = 0;
    assert(canvas_of(out@, marks@).marks =~= blank().marks);
    assert(pieces_view(plan@).skip(0) == pieces_view(plan@));
    while i < plan.len()
        invariant
            i <= plan.len(),
            canvas_wf(canvas_of(out@, marks@)),
            render_onto(canvas_of(out@, marks@), pieces_view(plan@).skip(i as int)) == render_onto(
                blank(),
                pieces_view(plan@),
            ),
        decreases plan.len() - i,
    {
        assert(pieces_view(plan@).skip(i as int)[0] == plan@[i as int]@);
        assert(pieces_view(plan@).skip(i as int).skip(1) == pieces_view(plan@).skip(i + 1));
        draw_now(&mut out, &mut marks, &plan[i]);
        i += 1;
    }
    string_from_chars(&out)
}

/// Puts the steps of `plan` before those that wait, the first on top.
fn push_plan(queue: &mut Vec<Piece>, plan: Vec<Piece>)
    ensures
        from_top(final(queue)@) == pieces_view(plan@) + from_top(old(queue)@),
{
    let mut plan = plan;
    let ghost whole = plan@;
    assert(pieces_view(whole.skip(whole.len() as int)) + from_top(queue@) =~= from_top(queue@));
    while plan.len() > 0
        invariant
            plan@ == whole.take(plan.len() as int),
            plan.len() <= whole.len(),
            from_top(queue@) == pieces_view(whole.skip(plan.len() as int)) + from_top(old(queue)@),
        decreases plan.len(),
    {
        let ghost n = plan.len() as int;
        let ghost before = queue@;
        let p = plan.pop().unwrap();
        assert(p == whole[n - 1]);
        queue.push(p);
        assert(queue@.drop_last() == before);
        assert(pieces_view(whole.skip(n - 1)) =~= seq![p@] + pieces_view(whole.skip(n)));
        assert(plan@ =~= whole.take(plan.len() as int));
        assert(from_top(queue@) =~= pieces_view(whole.skip(n - 1)) + from_top(old(queue)@));
    }
    assert(whole.skip(0) == whole);
}

impl Session {
    /// The marks are positions in the text, in rising order, and the step that is waited for
    /// is work outside.
    #[verifier::type_invariant]
    spec fn wf(&self) -> bool {
        &&& canvas_wf(self@.canvas)
        &&& match self.waiting {
            Some(p) => is_effect(p@),
            None => true,
        }
    }

    /// The interpretation of `msg` at its start: as a document with its header block where
    /// `head` names the headers to show, else as a body.
    pub fn new(interpreter: Interpreter, head: Option<ShowHeadersStrategy>, msg: &Message) -> (res:
        Self)
        ensures
            res@ == (SessionView {
                settings: interpreter@,
                head,
                canvas: blank(),
                pending: plan_msg(interpreter@, head, *msg),
                waiting: None,
            }),
    {
        let plan = interpreter.interpret_with_headers(&head, msg);
        let mut queue: Vec<Piece> = Vec::new();
        push_plan(&mut queue, plan);
        let res = Session {
            interpreter,
            head,
            out: Vec::new(),
            marks: Vec::new(),
            queue,
            waiting: None,
        };
        assert(res@.canvas.marks =~= Seq::<int>::empty());
        assert(res@.pending =~= plan_msg(interpreter@, head, *msg));
        res
    }

    /// Takes in what the caller reports, and gives the state after it and what to do next:
    /// see `step_spec`.
    pub fn step(self, event: Event) -> (res: (Self, Result<Action, Error>))
        ensures
            res.0@ == step_spec(self@, event).0,
            match res.1 {
                Ok(action) => step_spec(self@, event).1 == Ok::<ActionView, ErrorView>(action@),
                Err(error) => step_spec(self@, event).1 == Err::<ActionView, ErrorView>(error@),
            },
    {
        proof {
            use_type_invariant(&self);
        }
        let Session { interpreter, head, out, marks, queue, waiting } = self;
        let mut out = out;
        let mut marks = marks;
        let mut queue = queue;
        match waiting {
            None => {
                let (waiting, action) = proceed_now(&mut out, &mut marks, &mut queue);
                (Session { interpreter, head, out, marks, queue, waiting }, Ok(action))
            },
            Some(p) => {
                match (&p, event) {
                    (Piece::Save { .. }, Event::Saved) | (Piece::Verify { .. }, Event::Verified) => {
                        assert(from_top(queue@) =~= Seq::<PieceView>::empty() + from_top(queue@));
                        let (waiting, action) = proceed_now(&mut out, &mut marks, &mut queue);
                        (Session { interpreter, head, out, marks, queue, waiting }, Ok(action))
                    },
                    (Piece::Decrypt { .. }, Event::Decrypted(msg)) => {
                        let plan = interpreter.interpret_body(&head, &msg);
                        push_plan(&mut queue, plan);
                        let (waiting, action) = proceed_now(&mut out, &mut marks, &mut queue);
                        (Session { interpreter, head, out, marks, queue, waiting }, Ok(action))
                    },
                    (_, Event::Failed) => {
                        let error = error_for(&p);
                        (Session { interpreter, head, out, marks, queue, waiting: Some(p) }, Err(error))
                    },
                    (Piece::Decrypt { .. }, Event::Unparsed) => {
                        (
                            Session { interpreter, head, out, marks, queue, waiting: Some(p) },
                            Err(Error::ParseRawEmailError),
                        )
                    },
                    _ => {
                        let action = action_for(&p);
                        (Session { interpreter, head, out, marks, queue, waiting: Some(p) }, Ok(action))
                    },
                }
            },
        }
    }
}

/// Takes the steps up to the first that is work outside.
fn settle_now(out: &mut Vec<char>, marks: &mut Vec<usize>, queue: &mut Vec<Piece>)
    requires
        canvas_wf(canvas_of(old(out)@, old(marks)@)),
    ensures
        canvas_wf(canvas_of(final(out)@, final(marks)@)),
        (canvas_of(final(out)@, final(marks)@), from_top(final(queue)@)) == settle(
            canvas_of(old(out)@, old(marks)@),
            from_top(old(queue)@),
        ),
        final(queue).len() > 0 ==> is_effect(final(queue)@.last()@),
{
    while queue.len() > 0 && !is_work(&queue[queue.len() - 1])
        invariant
            canvas_wf(canvas_of(out@, marks@)),
            settle(canvas_of(out@, marks@), from_top(queue@)) == settle(
                canvas_of(old(out)@, old(marks)@),
                from_top(old(queue)@),
            ),
        decreases queue.len(),
    {
        let ghost pending = from_top(queue@);
        let p = queue.pop().unwrap();
        assert(pending[0] == p@);
        assert(pending.skip(1) =~= from_top(queue@));
        draw_now(out, marks, &p);
    }
    proof {
        if queue.len() > 0 {
            assert(from_top(queue@)[0] == queue@.last()@);
        }
    }
}

/// Goes on to the next work outside, or to the end: the step that is waited for from then
/// on, and what to tell the caller.
fn proceed_now(out: &mut Vec<char>, marks: &mut Vec<usize>, queue: &mut Vec<Piece>) -> (res: (
    Option<Piece>,
    Action,
))
    requires
        canvas_wf(canvas_of(old(out)@, old(marks)@)),
    ensures
        canvas_wf(canvas_of(final(out)@, final(marks)@)),
        res.0 is Some ==> is_effect(res.0->Some_0@),
        ({
            let (canvas, rest) = settle(canvas_of(old(out)@, old(marks)@), from_top(old(queue)@));
            &&& canvas_of(final(out)@, final(marks)@) == canvas
            &&& if rest.len() == 0 {
                &&& from_top(final(queue)@) == rest
                &&& res.0 is None
                &&& res.1@ == ActionView::Done(canvas.out)
            } else {
                &&& from_top(final(queue)@) == rest.skip(1)
                &&& res.0 is Some
                &&& res.0->Some_0@ == rest[0]
                &&& res.1@ == action_of(rest[0])
            }
        }),
{
    settle_now(out, marks, queue);
    let ghost pending = from_top(queue@);
    if queue.len() == 0 {
        (None, Action::Done(string_from_chars(out)))
    } else {
        let p = queue.pop().unwrap();
        assert(pending[0] == p@);
        assert(pending.skip(1) =~= from_top(queue@));
        let action = action_for(&p);
        (Some(p), action)
    }
}

/// Decides whether a step is work to be done outside.
fn is_work(p: &Piece) -> (res: bool)
    ensures
        res == is_effect(p@),
{
    match p {
        Piece::Save { .. } => true,
        Piece::Verify { .. } => true,
        Piece::Decrypt { .. } => true,
        _ => false,
    }
}

/// The action that asks for the work of a step.
fn action_for(p: &Piece) -> (res: Action)
    ensures
        res@ == action_of(p@),
{
    match p {
        Piece::Save { path, data } => Action::Save {
            path: path.clone(),
            data: slice_to_vec(data.as_slice()),
        },
        Piece::Verify { command, signature } => Action::Verify {
            command: command.clone(),
            signature: slice_to_vec(signature.as_slice()),
        },
        Piece::Decrypt { command, payload } => Action::Decrypt {
            command: command.clone(),
            payload: slice_to_vec(payload.as_slice()),
        },
        _ => Action::Done(String::new()),
    }
}

/// The error that the failure of a step's work is.
fn error_for(p: &Piece) -> (res: Error)
    ensures
        res@ == error_of(p@),
{
    match p {
        Piece::Save { path, data } => Error::WriteAttachmentError(path.clone()),
        Piece::Verify { .. } => Error::VerifyPartError,
        _ => Error::DecryptPartError,
    }
}

} // verus!
