//! A status bar made of independently updating text widgets.
//!
//! Each widget hands over batches of styled text on its own schedule. The bar
//! keeps the latest batch of every widget, packs all of them into one row of
//! pixel-exact rectangles and records, for each rectangle, the drawing
//! operations that paint it.
//!
//! * [`text`] holds the style and geometry model and what measuring and
//!   rendering a text come to.
//! * [`draw`] holds the record of drawing operations.
//! * [`bar`] places the texts of a row.
//! * [`widgets`] holds the widgets that come with the bar.
//! * [`Cnx`] is the scheduler: it takes one [`Event`] at a time and answers
//!   with the [`Action`] that whoever drives it is to carry out.
//!
//! The scheduler neither measures nor paints. It asks for the sizes of the
//! texts of a row, lays the row out when they come, and asks for the row to
//! be painted. One such pass runs at a time; batches that arrive during a
//! pass are kept, and one further pass follows for all of them.

pub mod bar;
pub mod draw;
pub mod text;
pub mod widgets;

use vstd::prelude::*;
pub use crate::bar::Position;
use crate::bar::{layout_row, placed_row};
use crate::draw::{Context, DrawOpView, Layout, LayoutView};
use crate::text::{ComputedText, ComputedTextView, Text, TextView, computed_views, text_views};

verus! {

/// What ends the bar.
#[derive(Clone, Copy, Debug, PartialEq, Eq, Structural)]
pub enum Error {
    /// No context to shape text in could be made for the surface.
    LayoutCreation,
    /// The widget's sequence of batches ended with an error.
    WidgetProducer { widget: usize },
    /// The window could not be made or drawn to.
    Window,
    /// The desktop did not answer a query.
    Query,
    /// An event came that the scheduler was not waiting for: a batch of a
    /// widget that was never added, sizes that nobody asked for or that are
    /// not one for each text, a presentation that nobody asked for.
    UnexpectedEvent,
}

/// What the scheduler is waiting for.
#[derive(Clone, Copy, Debug, PartialEq, Eq, Structural)]
pub enum Phase {
    /// For a widget to hand over a batch.
    Idle,
    /// For the sizes of the texts of the row.
    LayingOut,
    /// For the row to be painted and presented.
    Redrawing,
}

/// What happened outside the scheduler.
#[derive(Debug, PartialEq)]
pub enum Event {
    /// A widget handed over a batch, which takes the place of its last one.
    Batch { widget: usize, texts: Vec<Text> },
    /// A widget's sequence ended; its last batch stays.
    Finished { widget: usize },
    /// A widget, or something the bar relies on, failed.
    Failed { error: Error },
    /// The layouts last asked about were measured: each one's width and
    /// height in pixels, in the order of the layouts.
    Measured { sizes: Vec<(u32, u32)> },
    /// The contexts last handed out were painted and the surface presented.
    Presented,
}

/// What an [`Event`] holds.
pub enum EventView {
    Batch { widget: usize, texts: Seq<TextView> },
    Finished { widget: usize },
    Failed { error: Error },
    Measured { sizes: Seq<(u32, u32)> },
    Presented,
}

impl View for Event {
    type V = EventView;

    open spec fn view(&self) -> EventView {
        match *self {
            Event::Batch { widget, texts } => EventView::Batch { widget, texts: text_views(texts@) },
            Event::Finished { widget } => EventView::Finished { widget },
            Event::Failed { error } => EventView::Failed { error },
            Event::Measured { sizes } => EventView::Measured { sizes: sizes@ },
            Event::Presented => EventView::Presented,
        }
    }
}

/// What the scheduler asks for in answer to an event.
#[derive(Debug, PartialEq)]
pub enum Action {
    /// Nothing, but to wait for the next event.
    Wait,
    /// To measure every layout and to answer with [`Event::Measured`].
    Measure { layouts: Vec<Layout> },
    /// To carry out every context's operations on the surface, each context
    /// from the surface's origin, in order; then to present the surface,
    /// once, and to answer with [`Event::Presented`].
    Paint { contexts: Vec<Context> },
    /// To stop: the bar cannot go on.
    Stop { error: Error },
}

/// What an [`Action`] holds.
pub enum ActionView {
    Wait,
    Measure { layouts: Seq<LayoutView> },
    Paint { contexts: Seq<Seq<DrawOpView>> },
    Stop { error: Error },
}

/// What the layouts of `layouts` hold, one for one.
pub open spec fn layout_views(layouts: Seq<Layout>) -> Seq<LayoutView> {
    layouts.map_values(|layout: Layout| layout@)
}

/// What was asked of each context of `contexts`, one for one.
pub open spec fn context_views(contexts: Seq<Context>) -> Seq<Seq<DrawOpView>> {
    contexts.map_values(|cr: Context| cr@)
}

impl View for Action {
    type V = ActionView;

    open spec fn view(&self) -> ActionView {
        match *self {
            Action::Wait => ActionView::Wait,
            Action::Measure { layouts } => ActionView::Measure { layouts: layout_views(layouts@) },
            Action::Paint { contexts } => ActionView::Paint { contexts: context_views(contexts@) },
            Action::Stop { error } => ActionView::Stop { error },
        }
    }
}

/// The row of `contents`: the batches one after the other, in the order of
/// their widgets.
pub open spec fn row_of(contents: Seq<Seq<TextView>>) -> Seq<TextView>
    decreases contents.len(),
{
    if contents.len() == 0 {
        Seq::empty()
    } else {
        row_of(contents.drop_last()) + contents.last()
    }
}

/// What is asked to be measured for a frame: the layout of each text.
pub open spec fn frame_layouts(frame: Seq<TextView>) -> Seq<LayoutView> {
    Seq::new(frame.len(), |i: int| frame[i].layout())
}

/// The texts of `frame`, each in the rectangle of its size in `sizes`.
pub open spec fn measured_row(frame: Seq<TextView>, sizes: Seq<(u32, u32)>) -> Seq<
    ComputedTextView,
> {
    Seq::new(frame.len(), |i: int| frame[i].computed(sizes[i].0 as nat, sizes[i].1 as nat))
}

/// What painting `row` asks for: the drawing of each text, in order.
pub open spec fn row_drawings(row: Seq<ComputedTextView>) -> Seq<Seq<DrawOpView>> {
    Seq::new(row.len(), |i: int| row[i].drawing())
}

/// The texts that `row` was measured from.
pub open spec fn row_requests(row: Seq<ComputedTextView>) -> Seq<TextView> {
    Seq::new(row.len(), |i: int| row[i].request())
}

/// What a [`Cnx`] holds.
pub struct CnxView {
    pub position: Position,
    /// The width of the surface, in pixels.
    pub width: nat,
    /// The height of the bar, in pixels.
    pub height: nat,
    /// The latest batch of every widget, in the order in which the widgets
    /// were added.
    pub contents: Seq<Seq<TextView>>,
    pub phase: Phase,
    /// Whether a batch came since the pass that is under way began.
    pub pending: bool,
    /// The texts that are being measured.
    pub frame: Seq<TextView>,
    /// The row as it was last laid out.
    pub row: Seq<ComputedTextView>,
}

impl CnxView {
    /// The state with one more widget, which has handed over nothing yet.
    pub open spec fn add_widget(self) -> CnxView {
        CnxView { contents: self.contents.push(Seq::empty()), ..self }
    }

    /// The state in which a pass on the present contents has begun, and what
    /// it asks for.
    pub open spec fn begin_pass(self) -> (CnxView, ActionView) {
        let frame = row_of(self.contents);
        (
            CnxView { phase: Phase::LayingOut, pending: false, frame, ..self },
            ActionView::Measure { layouts: frame_layouts(frame) },
        )
    }

    /// A widget's batch takes the place of its last one. Where no pass is
    /// under way one begins; else the batch waits for the pass that follows.
    pub open spec fn update(self, widget: usize, texts: Seq<TextView>) -> (CnxView, ActionView) {
        if widget >= self.contents.len() {
            (self, ActionView::Stop { error: Error::UnexpectedEvent })
        } else {
            let stored = CnxView { contents: self.contents.update(widget as int, texts), ..self };
            if self.phase == Phase::Idle {
                stored.begin_pass()
            } else {
                (CnxView { pending: true, ..stored }, ActionView::Wait)
            }
        }
    }

    /// A widget's sequence ended: nothing changes.
    pub open spec fn finished(self, widget: usize) -> (CnxView, ActionView) {
        if widget >= self.contents.len() {
            (self, ActionView::Stop { error: Error::UnexpectedEvent })
        } else {
            (self, ActionView::Wait)
        }
    }

    /// The sizes of the frame's texts came: the row is laid out and is to be
    /// painted.
    pub open spec fn measured(self, sizes: Seq<(u32, u32)>) -> (CnxView, ActionView) {
        if self.phase != Phase::LayingOut || sizes.len() != self.frame.len() {
            (self, ActionView::Stop { error: Error::UnexpectedEvent })
        } else {
            let row = placed_row(measured_row(self.frame, sizes), self.width, self.height);
            (
                CnxView { phase: Phase::Redrawing, frame: Seq::empty(), row, ..self },
                ActionView::Paint { contexts: row_drawings(row) },
            )
        }
    }

    /// The row was painted and presented. Where a batch came meanwhile, the
    /// next pass begins; else the scheduler is idle.
    pub open spec fn presented(self) -> (CnxView, ActionView) {
        if self.phase != Phase::Redrawing {
            (self, ActionView::Stop { error: Error::UnexpectedEvent })
        } else if self.pending {
            self.begin_pass()
        } else {
            (CnxView { phase: Phase::Idle, ..self }, ActionView::Wait)
        }
    }

    /// The state after `event`, and what the scheduler asks for.
    pub open spec fn step(self, event: EventView) -> (CnxView, ActionView) {
        match event {
            EventView::Batch { widget, texts } => self.update(widget, texts),
            EventView::Finished { widget } => self.finished(widget),
            EventView::Failed { error } => (self, ActionView::Stop { error }),
            EventView::Measured { sizes } => self.measured(sizes),
            EventView::Presented => self.presented(),
        }
    }
}

/// What the batches of `contents` hold, one for one.
pub open spec fn batch_views(contents: Seq<Vec<Text>>) -> Seq<Seq<TextView>> {
    contents.map_values(|batch: Vec<Text>| text_views(batch@))
}

/// The scheduler of a bar: the latest batch of every widget, the row as it
/// was last laid out, and where the pass under way stands.
#[derive(Debug)]
pub struct Cnx {
    position: Position,
    width: u32,
    height: u32,
    contents: Vec<Vec<Text>>,
    phase: Phase,
    pending: bool,
    frame: Vec<Text>,
    row: Vec<ComputedText>,
}

impl View for Cnx {
    type V = CnxView;

    closed spec fn view(&self) -> CnxView {
        CnxView {
            position: self.position,
            width: self.width as nat,
            height: self.height as nat,
            contents: batch_views(self.contents@),
            phase: self.phase,
            pending: self.pending,
            frame: text_views(self.frame@),
            row: computed_views(self.row@),
        }
    }
}

/// The row of the first `n + 1` batches is that of the first `n` and the
/// batch after them.
proof fn lemma_row_of_step(contents: Seq<Seq<TextView>>, n: int)
    requires
        0 <= n < contents.len(),
    ensures
        row_of(contents.take(n + 1)) == row_of(contents.take(n)) + contents[n],
{
    assert(contents.take(n + 1).drop_last() =~= contents.take(n));
}

/// The texts of all batches, one batch after the other.
fn snapshot(contents: &Vec<Vec<Text>>) -> (frame: Vec<Text>)
    ensures
        text_views(frame@) == row_of(batch_views(contents@)),
{
    let ghost views = batch_views(contents@);
    let mut frame: Vec<Text> = Vec::new();
    let mut i: usize = 0;
    assert(views.take(0) =~= Seq::<Seq<TextView>>::empty());
    assert(text_views(frame@) =~= row_of(views.take(0)));
    while i < contents.len()
        invariant
            i <= contents.len(),
            views == batch_views(contents@),
            text_views(frame@) == row_of(views.take(i as int)),
        decreases contents.len() - i,
    {
        let batch = &contents[i];
        let ghost done = text_views(frame@);
        let mut j: usize = 0;
        assert(text_views(frame@) =~= done + text_views(batch@).take(0));
        while j < batch.len()
            invariant
                j <= batch.len(),
                text_views(frame@) == done + text_views(batch@).take(j as int),
            decreases batch.len() - j,
        {
            let ghost earlier = text_views(frame@);
            frame.push(batch[j].clone());
            assert(text_views(frame@) =~= earlier.push(batch@[j as int]@));
            assert(text_views(batch@).take(j + 1) =~= text_views(batch@).take(j as int).push(
                batch@[j as int]@,
            ));
            j = j + 1;
        }
        proof {
            assert(text_views(batch@).take(batch.len() as int) =~= text_views(batch@));
            lemma_row_of_step(views, i as int);
        }
        i = i + 1;
    }
    assert(views.take(contents.len() as int) =~= views);
    frame
}

/// The layout of each text of `frame`.
fn layouts_of(frame: &Vec<Text>) -> (layouts: Vec<Layout>)
    ensures
        layout_views(layouts@) == frame_layouts(text_views(frame@)),
{
    let mut layouts: Vec<Layout> = Vec::new();
    let mut i: usize = 0;
    while i < frame.len()
        invariant
            i <= frame.len(),
            layouts.len() == i,
            forall|j: int| 0 <= j < i ==> (#[trigger] layouts@[j])@ == frame@[j]@.layout(),
        decreases frame.len() - i,
    {
        layouts.push(frame[i].layout());
        i = i + 1;
    }
    assert(layout_views(layouts@) =~= frame_layouts(text_views(frame@)));
    layouts
}

/// The texts of `frame`, each in the rectangle of its size in `sizes`.
fn compute_row(frame: Vec<Text>, sizes: &Vec<(u32, u32)>) -> (row: Vec<ComputedText>)
    requires
        sizes.len() == frame.len(),
    ensures
        computed_views(row@) == measured_row(text_views(frame@), sizes@),
{
    let mut row: Vec<ComputedText> = Vec::new();
    let ghost texts = frame@;
    for text in it: frame
        invariant
            it.seq() == texts,
            sizes.len() == texts.len(),
            row.len() == it.index(),
            forall|j: int|
                0 <= j < it.index() ==> (#[trigger] row@[j])@ == texts[j]@.computed(
                    sizes@[j].0 as nat,
                    sizes@[j].1 as nat,
                ),
    {
        let size = sizes[row.len()];
        row.push(text.compute(size.0, size.1));
    }
    assert(computed_views(row@) =~= measured_row(text_views(texts), sizes@));
    row
}

/// The drawing of each text of `row`.
fn render_row(row: &Vec<ComputedText>) -> (contexts: Vec<Context>)
    ensures
        context_views(contexts@) == row_drawings(computed_views(row@)),
{
    let mut contexts: Vec<Context> = Vec::new();
    let mut i: usize = 0;
    while i < row.len()
        invariant
            i <= row.len(),
            contexts.len() == i,
            forall|j: int| 0 <= j < i ==> (#[trigger] contexts@[j])@ == row@[j]@.drawing(),
        decreases row.len() - i,
    {
        contexts.push(row[i].render());
        i = i + 1;
    }
    assert(context_views(contexts@) =~= row_drawings(computed_views(row@)));
    contexts
}

impl Cnx {
    /// The scheduler of a bar at `position`, on a surface `width` pixels
    /// wide and `height` high, without widgets.
    pub fn new(position: Position, width: u32, height: u32) -> (cnx: Cnx)
        ensures
            cnx@ == (CnxView {
                position,
                width: width as nat,
                height: height as nat,
                contents: Seq::empty(),
                phase: Phase::Idle,
                pending: false,
                frame: Seq::empty(),
                row: Seq::empty(),
            }),
    {
        let cnx = Cnx {
            position,
            width,
            height,
            contents: Vec::new(),
            phase: Phase::Idle,
            pending: false,
            frame: Vec::new(),
            row: Vec::new(),
        };
        assert(cnx@.contents =~= Seq::empty());
        assert(cnx@.frame =~= Seq::empty());
        assert(cnx@.row =~= Seq::empty());
        cnx
    }

    /// Adds a widget to the right of those added before, and gives the number
    /// under which its batches are to be handed over.
    pub fn add_widget(&mut self) -> (widget: usize)
        ensures
            final(self)@ == old(self)@.add_widget(),
            widget == old(self)@.contents.len(),
    {
        let widget = self.contents.len();
        let batch: Vec<Text> = Vec::new();
        assert(text_views(batch@) =~= Seq::empty());
        self.contents.push(batch);
        assert(self@.contents =~= old(self)@.contents.push(Seq::empty()));
        widget
    }

    fn begin_pass(&mut self) -> (action: Action)
        ensures
            (final(self)@, action@) == old(self)@.begin_pass(),
    {
        let frame = snapshot(&self.contents);
        let layouts = layouts_of(&frame);
        self.frame = frame;
        self.phase = Phase::LayingOut;
        self.pending = false;
        Action::Measure { layouts }
    }

    /// Takes a widget's batch in the place of its last one.
    pub fn update(&mut self, widget: usize, texts: Vec<Text>) -> (action: Action)
        ensures
            (final(self)@, action@) == old(self)@.update(widget, text_views(texts@)),
    {
        if widget >= self.contents.len() {
            return Action::Stop { error: Error::UnexpectedEvent };
        }
        self.contents[widget] = texts;
        assert(self@.contents =~= old(self)@.contents.update(widget as int, text_views(texts@)));
        if self.phase == Phase::Idle {
            self.begin_pass()
        } else {
            self.pending = true;
            Action::Wait
        }
    }

    /// Takes note that a widget's sequence ended.
    pub fn finished(&self, widget: usize) -> (action: Action)
        ensures
            (self@, action@) == self@.finished(widget),
    {
        if widget >= self.contents.len() {
            Action::Stop { error: Error::UnexpectedEvent }
        } else {
            Action::Wait
        }
    }

    /// Takes the sizes of the texts that were to be measured, and lays the
    /// row out.
    pub fn measured(&mut self, sizes: Vec<(u32, u32)>) -> (action: Action)
        ensures
            (final(self)@, action@) == old(self)@.measured(sizes@),
    {
        if self.phase != Phase::LayingOut || sizes.len() != self.frame.len() {
            return Action::Stop { error: Error::UnexpectedEvent };
        }
        let mut frame: Vec<Text> = Vec::new();
        core::mem::swap(&mut frame, &mut self.frame);
        let mut row = compute_row(frame, &sizes);
        layout_row(&mut row, self.width, self.height);
        let contexts = render_row(&row);
        self.row = row;
        self.phase = Phase::Redrawing;
        assert(self@.frame =~= Seq::empty());
        Action::Paint { contexts }
    }

    /// Takes note that the row was painted and presented.
    pub fn presented(&mut self) -> (action: Action)
        ensures
            (final(self)@, action@) == old(self)@.presented(),
    {
        if self.phase != Phase::Redrawing {
            Action::Stop { error: Error::UnexpectedEvent }
        } else if self.pending {
            self.begin_pass()
        } else {
            self.phase = Phase::Idle;
            Action::Wait
        }
    }

    /// The edge of the screen at which the bar stands.
    pub fn position(&self) -> (position: Position)
        ensures
            position == self@.position,
    {
        self.position
    }

    /// The width of the surface, in pixels.
    pub fn width(&self) -> (width: u32)
        ensures
            width == self@.width,
    {
        self.width
    }

    /// The height of the bar, in pixels.
    pub fn height(&self) -> (height: u32)
        ensures
            height == self@.height,
    {
        self.height
    }

    /// The number of widgets.
    pub fn widgets(&self) -> (widgets: usize)
        ensures
            widgets == self@.contents.len(),
    {
        self.contents.len()
    }

    /// What the scheduler is waiting for.
    pub fn phase(&self) -> (phase: Phase)
        ensures
            phase == self@.phase,
    {
        self.phase
    }

    /// Whether a batch came since the pass that is under way began.
    pub fn is_pending(&self) -> (pending: bool)
        ensures
            pending == self@.pending,
    {
        self.pending
    }

    /// The row as it was last laid out.
    pub fn row(&self) -> (row: &Vec<ComputedText>)
        ensures
            computed_views(row@) == self@.row,
    {
        &self.row
    }

    /// Takes one event and says what is to be done.
    pub fn handle(&mut self, event: Event) -> (action: Action)
        ensures
            (final(self)@, action@) == old(self)@.step(event@),
    {
        match event {
            Event::Batch { widget, texts } => self.update(widget, texts),
            Event::Finished { widget } => self.finished(widget),
            Event::Failed { error } => Action::Stop { error },
            Event::Measured { sizes } => self.measured(sizes),
            Event::Presented => self.presented(),
        }
    }
}

impl CnxView {
    /// The state of a scheduler that was just made.
    pub open spec fn initial(position: Position, width: nat, height: nat) -> CnxView {
        CnxView {
            position,
            width,
            height,
            contents: Seq::empty(),
            phase: Phase::Idle,
            pending: false,
            frame: Seq::empty(),
            row: Seq::empty(),
        }
    }

    /// Unless a batch waits for the next pass, the row that is shown, or the
    /// frame that is on its way to be shown, is the row of the latest batch
    /// of every widget; and no batch waits while the scheduler is idle.
    pub open spec fn consistent(self) -> bool {
        match self.phase {
            Phase::Idle => !self.pending && row_requests(self.row) == row_of(self.contents),
            Phase::LayingOut => !self.pending ==> self.frame == row_of(self.contents),
            Phase::Redrawing => !self.pending ==> row_requests(self.row) == row_of(
                self.contents,
            ),
        }
    }

    /// The state after the batches of `updates` came, first to last.
    pub open spec fn after_updates(self, updates: Seq<(usize, Seq<TextView>)>) -> CnxView
        decreases updates.len(),
    {
        if updates.len() == 0 {
            self
        } else {
            self.after_updates(updates.drop_last()).update(updates.last().0, updates.last().1).0
        }
    }
}

/// The batches of `contents` after those of `updates` took their widgets'
/// places, first to last.
pub open spec fn latest(contents: Seq<Seq<TextView>>, updates: Seq<(usize, Seq<TextView>)>) -> Seq<
    Seq<TextView>,
>
    decreases updates.len(),
{
    if updates.len() == 0 {
        contents
    } else {
        latest(contents, updates.drop_last()).update(updates.last().0 as int, updates.last().1)
    }
}

/// Every batch of `updates` is of one of the first `widgets` widgets.
pub open spec fn updates_in_range(updates: Seq<(usize, Seq<TextView>)>, widgets: nat) -> bool {
    forall|k: int| 0 <= k < updates.len() ==> (#[trigger] updates[k]).0 < widgets
}

/// A widget that has handed over nothing adds nothing to the row.
pub proof fn lemma_empty_batch_adds_nothing(contents: Seq<Seq<TextView>>)
    ensures
        row_of(contents.push(Seq::empty())) == row_of(contents),
{
    assert(contents.push(Seq::empty()).drop_last() =~= contents);
    assert(row_of(contents) + Seq::<TextView>::empty() =~= row_of(contents));
}

/// Measuring and laying out a frame keeps every text of it, in its place:
/// the row that is painted was measured from the frame and from nothing
/// else.
pub proof fn lemma_pass_keeps_the_frame(s: CnxView, sizes: Seq<(u32, u32)>)
    requires
        s.phase == Phase::LayingOut,
        sizes.len() == s.frame.len(),
    ensures
        row_requests(s.measured(sizes).0.row) == s.frame,
        s.measured(sizes).1 == (ActionView::Paint {
            contexts: row_drawings(s.measured(sizes).0.row),
        }),
{
    assert(row_requests(s.measured(sizes).0.row) =~= s.frame);
}

/// A scheduler that was just made is consistent, and stays so when a widget
/// is added and whatever event comes.
pub proof fn lemma_scheduler_stays_consistent(s: CnxView, event: EventView)
    requires
        s.consistent(),
    ensures
        CnxView::initial(s.position, s.width, s.height).consistent(),
        s.add_widget().consistent(),
        s.step(event).0.consistent(),
{
    assert(row_requests(Seq::<ComputedTextView>::empty()) =~= row_of(
        Seq::<Seq<TextView>>::empty(),
    ));
    lemma_empty_batch_adds_nothing(s.contents);
    match event {
        EventView::Measured { sizes } => {
            if s.phase == Phase::LayingOut && sizes.len() == s.frame.len() {
                lemma_pass_keeps_the_frame(s, sizes);
            }
        },
        _ => {},
    }
}

/// A batch begins a pass at once where none is under way, and else waits for
/// the pass that follows: whatever the other widgets have handed over so
/// far, and be it nothing.
pub proof fn lemma_batch_begins_or_awaits_a_pass(s: CnxView, widget: usize, texts: Seq<TextView>)
    requires
        widget < s.contents.len(),
    ensures
        s.update(widget, texts).0.contents == s.contents.update(widget as int, texts),
        s.phase == Phase::Idle ==> s.update(widget, texts).1 == (ActionView::Measure {
            layouts: frame_layouts(row_of(s.contents.update(widget as int, texts))),
        }),
        s.phase != Phase::Idle ==> {
            &&& s.update(widget, texts).1 == ActionView::Wait
            &&& s.update(widget, texts).0.pending
            &&& s.update(widget, texts).0.phase == s.phase
        },
{
}

/// A batch that waits is not forgotten: laying out the row that is under
/// way leaves it waiting, and when that row is presented the next pass
/// begins, on the contents as they then are.
pub proof fn lemma_waiting_batch_gets_its_pass(s: CnxView, sizes: Seq<(u32, u32)>)
    requires
        s.pending,
    ensures
        s.phase == Phase::LayingOut && sizes.len() == s.frame.len() ==> {
            &&& s.measured(sizes).0.pending
            &&& s.measured(sizes).0.phase == Phase::Redrawing
            &&& s.measured(sizes).0.contents == s.contents
        },
        s.phase == Phase::Redrawing ==> {
            &&& s.presented().1 == (ActionView::Measure {
                layouts: frame_layouts(row_of(s.contents)),
            })
            &&& s.presented().0.frame == row_of(s.contents)
            &&& !s.presented().0.pending
        },
{
}

/// While a pass is under way, batches only take their widgets' places: no
/// pass begins, what is shown and what is being measured stay, and after
/// the last of them the contents hold the latest batch of every widget.
pub proof fn lemma_updates_during_a_pass(s: CnxView, updates: Seq<(usize, Seq<TextView>)>)
    requires
        s.phase != Phase::Idle,
        updates_in_range(updates, s.contents.len()),
    ensures
        s.after_updates(updates) == (CnxView {
            contents: latest(s.contents, updates),
            pending: s.pending || updates.len() > 0,
            ..s
        }),
        latest(s.contents, updates).len() == s.contents.len(),
        forall|k: int|
            0 <= k < updates.len() ==> (#[trigger] s.after_updates(updates.take(k))).update(
                updates[k].0,
                updates[k].1,
            ).1 == ActionView::Wait,
    decreases updates.len(),
{
    if updates.len() > 0 {
        let earlier = updates.drop_last();
        lemma_updates_during_a_pass(s, earlier);
        assert forall|k: int| 0 <= k < updates.len() implies (#[trigger] s.after_updates(
            updates.take(k),
        )).update(updates[k].0, updates[k].1).1 == ActionView::Wait by {
            if k < earlier.len() {
                assert(updates.take(k) =~= earlier.take(k));
                assert(updates[k] == earlier[k]);
            } else {
                assert(updates.take(k) =~= earlier);
                assert(updates[k].0 < s.contents.len());
            }
        }
        assert(updates.last().0 < s.contents.len());
    }
}

/// The batch that a widget handed over last is the one the contents hold.
pub proof fn lemma_latest_batch_wins(
    contents: Seq<Seq<TextView>>,
    updates: Seq<(usize, Seq<TextView>)>,
    k: int,
)
    requires
        0 <= k < updates.len(),
        updates_in_range(updates, contents.len()),
        forall|later: int| k < later < updates.len() ==> (#[trigger] updates[later]).0 != updates[k].0,
    ensures
        latest(contents, updates).len() == contents.len(),
        latest(contents, updates)[updates[k].0 as int] == updates[k].1,
    decreases updates.len(),
{
    let earlier = updates.drop_last();
    assert forall|j: int| 0 <= j < earlier.len() implies (#[trigger] earlier[j]).0
        < contents.len() by {
        assert(earlier[j] == updates[j]);
    }
    lemma_latest_len(contents, updates);
    lemma_latest_len(contents, earlier);
    assert(updates[k].0 < contents.len());
    if k < updates.len() - 1 {
        assert(earlier[k] == updates[k]);
        assert forall|later: int| k < later < earlier.len() implies (#[trigger] earlier[later]).0
            != earlier[k].0 by {
            assert(earlier[later] == updates[later]);
        }
        lemma_latest_batch_wins(contents, earlier, k);
        assert(updates.last() == updates[updates.len() - 1]);
        assert(updates.last().0 != updates[k].0);
    }
}

/// Batches take places; they add and remove none.
proof fn lemma_latest_len(contents: Seq<Seq<TextView>>, updates: Seq<(usize, Seq<TextView>)>)
    requires
        updates_in_range(updates, contents.len()),
    ensures
        latest(contents, updates).len() == contents.len(),
    decreases updates.len(),
{
    if updates.len() > 0 {
        let earlier = updates.drop_last();
        assert forall|j: int| 0 <= j < earlier.len() implies (#[trigger] earlier[j]).0
            < contents.len() by {
            assert(earlier[j] == updates[j]);
        }
        lemma_latest_len(contents, earlier);
        assert(updates.last() == updates[updates.len() - 1]);
    }
}

/// Two batches of one widget that come while a row is painted make one
/// pass, which begins when that row is presented and shows the second
/// batch; the first is never shown. With no further batch the scheduler is
/// idle after that pass.
pub proof fn lemma_updates_coalesce(
    s: CnxView,
    widget: usize,
    first: Seq<TextView>,
    second: Seq<TextView>,
    sizes: Seq<(u32, u32)>,
)
    requires
        s.phase == Phase::Redrawing,
        widget < s.contents.len(),
        sizes.len() == row_of(s.contents.update(widget as int, second)).len(),
    ensures
        ({
            let (s1, a1) = s.update(widget, first);
            let (s2, a2) = s1.update(widget, second);
            let (s3, a3) = s2.presented();
            let (s4, a4) = s3.measured(sizes);
            let (s5, a5) = s4.presented();
            let contents = s.contents.update(widget as int, second);
            &&& a1 == ActionView::Wait
            &&& a2 == ActionView::Wait
            &&& s1.row == s.row
            &&& s2.row == s.row
            &&& s3.contents == contents
            &&& a3 == (ActionView::Measure { layouts: frame_layouts(row_of(contents)) })
            &&& row_requests(s4.row) == row_of(contents)
            &&& a4 == (ActionView::Paint { contexts: row_drawings(s4.row) })
            &&& s5.phase == Phase::Idle
            &&& a5 == ActionView::Wait
        }),
{
    let (s1, a1) = s.update(widget, first);
    let (s2, a2) = s1.update(widget, second);
    let (s3, a3) = s2.presented();
    assert(s2.contents =~= s.contents.update(widget as int, second));
    lemma_pass_keeps_the_frame(s3, sizes);
}

} // verus!
