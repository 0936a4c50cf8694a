use cnx::draw::{Alignment, DrawOp, EllipsizeMode, Layout};
use cnx::text::{Attributes, Color, Font, Padding, Text};
use cnx::{Action, Cnx, Error, Event, Phase, Position};

fn attr() -> Attributes {
    Attributes {
        font: Font::new("SourceCodePro 21"),
        fg_color: Color { red: 0x3c, green: 0x38, blue: 0x36 },
        bg_color: None,
        padding: Padding::new(0, 0, 0, 0),
    }
}

fn text(words: &str, stretch: bool) -> Text {
    Text { attr: attr(), text: String::from(words), stretch }
}

fn words(action: &Action) -> Vec<String> {
    match action {
        Action::Measure { layouts } => layouts.iter().map(|layout| layout.text.clone()).collect(),
        other => panic!("no request to measure: {:?}", other),
    }
}

fn shown(cnx: &Cnx) -> Vec<String> {
    cnx.row().iter().map(|entry| entry.text.clone()).collect()
}

fn sizes(action: &Action) -> Vec<(u32, u32)> {
    match action {
        Action::Measure { layouts } => {
            layouts.iter().map(|layout| (10 * layout.text.len() as u32, 12)).collect()
        }
        other => panic!("no request to measure: {:?}", other),
    }
}

#[test]
fn a_new_scheduler_is_idle_and_empty() {
    let cnx = Cnx::new(Position::Bottom, 1920, 24);
    assert_eq!(cnx.position(), Position::Bottom);
    assert_eq!(cnx.width(), 1920);
    assert_eq!(cnx.height(), 24);
    assert_eq!(cnx.widgets(), 0);
    assert_eq!(cnx.phase(), Phase::Idle);
    assert!(!cnx.is_pending());
    assert!(cnx.row().is_empty());
}

#[test]
fn widgets_are_numbered_in_the_order_they_are_added() {
    let mut cnx = Cnx::new(Position::Top, 200, 24);
    assert_eq!(cnx.add_widget(), 0);
    assert_eq!(cnx.add_widget(), 1);
    assert_eq!(cnx.add_widget(), 2);
    assert_eq!(cnx.widgets(), 3);
    assert_eq!(cnx.phase(), Phase::Idle);
}

#[test]
fn left_and_center_fill_a_surface_of_200() {
    let mut cnx = Cnx::new(Position::Top, 200, 24);
    let left = cnx.add_widget();
    let center = cnx.add_widget();

    let action = cnx.handle(Event::Batch { widget: left, texts: vec![text("LEFT", false)] });
    assert_eq!(words(&action), vec!["LEFT"]);
    let action = cnx.handle(Event::Measured { sizes: vec![(50, 20)] });
    assert!(matches!(action, Action::Paint { .. }));
    assert_eq!(cnx.handle(Event::Presented), Action::Wait);

    let action = cnx.handle(Event::Batch { widget: center, texts: vec![text("CENTER", true)] });
    assert_eq!(words(&action), vec!["LEFT", "CENTER"]);
    let action = cnx.handle(Event::Measured { sizes: vec![(50, 20), (70, 20)] });

    let row = cnx.row();
    assert_eq!(row.len(), 2);
    assert_eq!((row[0].text.as_str(), row[0].x, row[0].width), ("LEFT", 0, 50));
    assert_eq!((row[1].text.as_str(), row[1].x, row[1].width), ("CENTER", 50, 150));
    assert_eq!(row[0].x + u128::from(row[0].width), 50);
    assert_eq!(row[1].x + u128::from(row[1].width), 200);
    assert_eq!((row[0].y, row[0].height), (0, 24));
    assert_eq!((row[1].y, row[1].height), (0, 24));

    match action {
        Action::Paint { contexts } => {
            assert_eq!(contexts.len(), 2);
            assert_eq!(contexts[0].ops[0], DrawOp::Translate { tx: 0, ty: 0 });
            assert_eq!(
                contexts[0].ops[2],
                DrawOp::Rectangle { x: 0, y: 0, width: 50, height: 24 }
            );
            assert_eq!(contexts[1].ops[0], DrawOp::Translate { tx: 50, ty: 0 });
            assert_eq!(
                contexts[1].ops[2],
                DrawOp::Rectangle { x: 0, y: 0, width: 150, height: 24 }
            );
            assert_eq!(
                contexts[1].ops[6],
                DrawOp::ShowLayout {
                    layout: Layout {
                        text: String::from("CENTER"),
                        font: Font::new("SourceCodePro 21"),
                        ellipsize: EllipsizeMode::End,
                        width: Some(150 * 1024),
                        height: Some(24 * 1024),
                        alignment: Alignment::Center,
                    },
                }
            );
            assert_eq!(contexts[0], row[0].render());
            assert_eq!(contexts[1], row[1].render());
        }
        other => panic!("nothing to paint: {:?}", other),
    }
    assert_eq!(cnx.handle(Event::Presented), Action::Wait);
    assert_eq!(cnx.phase(), Phase::Idle);
}

#[test]
fn the_order_of_arrival_does_not_change_the_row() {
    let mut cnx = Cnx::new(Position::Top, 200, 24);
    let left = cnx.add_widget();
    let center = cnx.add_widget();
    let action = cnx.handle(Event::Batch { widget: center, texts: vec![text("CENTER", true)] });
    assert_eq!(words(&action), vec!["CENTER"]);
    cnx.handle(Event::Measured { sizes: vec![(70, 20)] });
    assert_eq!((cnx.row()[0].x, cnx.row()[0].width), (0, 200));
    cnx.handle(Event::Presented);
    let action = cnx.handle(Event::Batch { widget: left, texts: vec![text("LEFT", false)] });
    assert_eq!(words(&action), vec!["LEFT", "CENTER"]);
    cnx.handle(Event::Measured { sizes: vec![(50, 20), (70, 20)] });
    assert_eq!((cnx.row()[0].x, cnx.row()[0].width), (0, 50));
    assert_eq!((cnx.row()[1].x, cnx.row()[1].width), (50, 150));
}

#[test]
fn a_batch_replaces_the_widgets_last_one_and_no_other() {
    let mut cnx = Cnx::new(Position::Top, 500, 24);
    let a = cnx.add_widget();
    let b = cnx.add_widget();
    let action = cnx.update(a, vec![text("a1", false), text("a2", false)]);
    cnx.measured(sizes(&action));
    cnx.presented();
    let action = cnx.update(b, vec![text("b1", false)]);
    assert_eq!(words(&action), vec!["a1", "a2", "b1"]);
    cnx.measured(sizes(&action));
    cnx.presented();
    let action = cnx.update(a, vec![text("a3", false)]);
    assert_eq!(words(&action), vec!["a3", "b1"]);
    cnx.measured(sizes(&action));
    assert_eq!(shown(&cnx), vec!["a3", "b1"]);
    cnx.presented();
    let action = cnx.update(a, Vec::new());
    assert_eq!(words(&action), vec!["b1"]);
}

#[test]
fn updates_during_a_redraw_are_coalesced() {
    let mut cnx = Cnx::new(Position::Top, 500, 24);
    let a = cnx.add_widget();
    let b = cnx.add_widget();
    let action = cnx.update(b, vec![text("b", false)]);
    cnx.measured(sizes(&action));
    assert_eq!(cnx.phase(), Phase::Redrawing);

    assert_eq!(cnx.update(a, vec![text("first", false)]), Action::Wait);
    assert_eq!(shown(&cnx), vec!["b"]);
    assert_eq!(cnx.update(a, vec![text("second", false)]), Action::Wait);
    assert_eq!(shown(&cnx), vec!["b"]);
    assert!(cnx.is_pending());
    assert_eq!(cnx.phase(), Phase::Redrawing);

    let action = cnx.presented();
    assert_eq!(words(&action), vec!["second", "b"]);
    assert!(!cnx.is_pending());
    cnx.measured(sizes(&action));
    assert_eq!(shown(&cnx), vec!["second", "b"]);
    assert_eq!(cnx.presented(), Action::Wait);
    assert_eq!(cnx.phase(), Phase::Idle);
}

#[test]
fn three_updates_during_a_redraw_make_one_pass() {
    let mut cnx = Cnx::new(Position::Top, 500, 24);
    let a = cnx.add_widget();
    let b = cnx.add_widget();
    let action = cnx.update(a, vec![text("a0", false)]);
    cnx.measured(sizes(&action));
    assert_eq!(cnx.update(a, vec![text("a1", false)]), Action::Wait);
    assert_eq!(cnx.update(b, vec![text("b1", false)]), Action::Wait);
    assert_eq!(cnx.update(a, vec![text("a2", false)]), Action::Wait);
    let action = cnx.presented();
    assert_eq!(words(&action), vec!["a2", "b1"]);
    cnx.measured(sizes(&action));
    assert_eq!(cnx.presented(), Action::Wait);
    assert_eq!(cnx.phase(), Phase::Idle);
    assert_eq!(shown(&cnx), vec!["a2", "b1"]);
}

#[test]
fn an_update_while_measuring_waits_for_the_next_pass() {
    let mut cnx = Cnx::new(Position::Top, 500, 24);
    let a = cnx.add_widget();
    let action = cnx.update(a, vec![text("old", false)]);
    assert_eq!(cnx.phase(), Phase::LayingOut);
    assert_eq!(cnx.update(a, vec![text("new", false), text("newer", false)]), Action::Wait);
    let painted = cnx.measured(sizes(&action));
    assert!(matches!(painted, Action::Paint { ref contexts } if contexts.len() == 1));
    assert_eq!(shown(&cnx), vec!["old"]);
    let action = cnx.presented();
    assert_eq!(words(&action), vec!["new", "newer"]);
    cnx.measured(sizes(&action));
    assert_eq!(shown(&cnx), vec!["new", "newer"]);
}

#[test]
fn a_silent_widget_does_not_hold_up_the_others() {
    let mut cnx = Cnx::new(Position::Top, 300, 24);
    let _silent = cnx.add_widget();
    let busy = cnx.add_widget();
    for round in 0..5 {
        let label = format!("tick {}", round);
        let action = cnx.update(busy, vec![text(&label, false)]);
        assert_eq!(words(&action), vec![label.clone()]);
        let painted = cnx.measured(sizes(&action));
        assert!(matches!(painted, Action::Paint { ref contexts } if contexts.len() == 1));
        assert_eq!(shown(&cnx), vec![label]);
        assert_eq!(cnx.presented(), Action::Wait);
    }
}

#[test]
fn a_finished_widget_keeps_its_last_batch() {
    let mut cnx = Cnx::new(Position::Top, 300, 24);
    let once = cnx.add_widget();
    let other = cnx.add_widget();
    let action = cnx.update(once, vec![text("LEFT", false)]);
    cnx.measured(sizes(&action));
    cnx.presented();
    assert_eq!(cnx.handle(Event::Finished { widget: once }), Action::Wait);
    assert_eq!(cnx.phase(), Phase::Idle);
    assert_eq!(shown(&cnx), vec!["LEFT"]);
    let action = cnx.update(other, vec![text("later", false)]);
    assert_eq!(words(&action), vec!["LEFT", "later"]);
}

#[test]
fn a_failed_widget_stops_the_bar() {
    let mut cnx = Cnx::new(Position::Top, 300, 24);
    let widget = cnx.add_widget();
    assert_eq!(
        cnx.handle(Event::Failed { error: Error::WidgetProducer { widget } }),
        Action::Stop { error: Error::WidgetProducer { widget } }
    );
}

#[test]
fn failures_of_what_the_bar_relies_on_stop_it() {
    let mut cnx = Cnx::new(Position::Top, 300, 24);
    for error in [Error::LayoutCreation, Error::Window, Error::Query] {
        assert_eq!(cnx.handle(Event::Failed { error }), Action::Stop { error });
    }
    assert_eq!(cnx.phase(), Phase::Idle);
}

#[test]
fn a_batch_of_an_unknown_widget_is_refused() {
    let mut cnx = Cnx::new(Position::Top, 300, 24);
    assert_eq!(
        cnx.update(0, vec![text("x", false)]),
        Action::Stop { error: Error::UnexpectedEvent }
    );
    cnx.add_widget();
    assert_eq!(
        cnx.update(1, vec![text("x", false)]),
        Action::Stop { error: Error::UnexpectedEvent }
    );
    assert_eq!(cnx.finished(1), Action::Stop { error: Error::UnexpectedEvent });
    assert_eq!(cnx.finished(0), Action::Wait);
    assert_eq!(cnx.phase(), Phase::Idle);
}

#[test]
fn sizes_nobody_asked_for_are_refused() {
    let mut cnx = Cnx::new(Position::Top, 300, 24);
    let widget = cnx.add_widget();
    assert_eq!(cnx.measured(Vec::new()), Action::Stop { error: Error::UnexpectedEvent });
    let action = cnx.update(widget, vec![text("a", false), text("b", false)]);
    assert_eq!(words(&action).len(), 2);
    assert_eq!(cnx.measured(vec![(1, 1)]), Action::Stop { error: Error::UnexpectedEvent });
    assert_eq!(
        cnx.measured(vec![(1, 1), (2, 2), (3, 3)]),
        Action::Stop { error: Error::UnexpectedEvent }
    );
    assert_eq!(cnx.phase(), Phase::LayingOut);
    assert!(matches!(cnx.measured(vec![(1, 1), (2, 2)]), Action::Paint { .. }));
    assert_eq!(cnx.measured(vec![(1, 1), (2, 2)]), Action::Stop { error: Error::UnexpectedEvent });
}

#[test]
fn a_presentation_nobody_asked_for_is_refused() {
    let mut cnx = Cnx::new(Position::Top, 300, 24);
    let widget = cnx.add_widget();
    assert_eq!(cnx.presented(), Action::Stop { error: Error::UnexpectedEvent });
    cnx.update(widget, vec![text("a", false)]);
    assert_eq!(cnx.presented(), Action::Stop { error: Error::UnexpectedEvent });
    assert_eq!(cnx.phase(), Phase::LayingOut);
}

#[test]
fn an_empty_row_is_painted_as_nothing() {
    let mut cnx = Cnx::new(Position::Top, 300, 24);
    let widget = cnx.add_widget();
    let action = cnx.update(widget, Vec::new());
    assert_eq!(action, Action::Measure { layouts: Vec::new() });
    assert_eq!(cnx.measured(Vec::new()), Action::Paint { contexts: Vec::new() });
    assert_eq!(cnx.presented(), Action::Wait);
}

#[test]
fn a_widget_added_during_a_pass_joins_the_next() {
    let mut cnx = Cnx::new(Position::Top, 300, 24);
    let first = cnx.add_widget();
    let action = cnx.update(first, vec![text("one", false)]);
    let second = cnx.add_widget();
    assert_eq!(second, 1);
    cnx.measured(sizes(&action));
    assert_eq!(cnx.update(second, vec![text("two", false)]), Action::Wait);
    let action = cnx.presented();
    assert_eq!(words(&action), vec!["one", "two"]);
}
