use vstd::prelude::*;

verus! {

/// The possible status of a button.
#[derive(Clone, Copy, Debug, PartialEq, Eq, Structural)]
pub enum Status {
    /// The button can be pressed.
    Active,
    /// The button can be pressed and it is being hovered.
    Hovered,
    /// The button is being pressed.
    Pressed,
    /// The button cannot be pressed.
    Disabled,
}

/// Whether a widget handled an event or let it pass.
#[derive(Clone, Copy, Debug, PartialEq, Eq, Structural)]
pub enum EventStatus {
    Ignored,
    Captured,
}

/// The kinds of input event that the drag-and-drop widgets tell apart.
#[derive(Clone, Copy, Debug, PartialEq, Eq, Structural)]
pub enum PointerEvent {
    LeftPressed,
    RightPressed,
    Moved,
    LeftReleased,
    /// Any other mouse event.
    OtherMouse,
    /// A keyboard, window or touch event.
    Other,
}

/// Which variant of its style a button is drawn with.
#[derive(Clone, Copy, Debug, PartialEq, Eq, Structural)]
pub enum StyleKind {
    Base,
    Highlighted,
    Dimmed,
}

/// What a draggable button does besides answering an event.
#[derive(Clone, Copy, Debug, PartialEq, Eq, Structural)]
pub enum ButtonEffect {
    NoEffect,
    /// Record the button's bounds as the dragged overlay's and report the widget bounds.
    StartDrag,
    /// Move the dragged overlay to the cursor.
    MoveOverlay,
    /// Send the button's press message (the drag it started has ended).
    PublishPress,
}

/// What a drop pane does with an event.
#[derive(Clone, Copy, Debug, PartialEq, Eq, Structural)]
pub enum PaneReaction {
    /// Let the event pass; report the widget bounds first when `report_bounds` holds.
    Ignore { report_bounds: bool },
    /// Log the press and hand the event to the content, whose answer is the pane's.
    ForwardToContent,
    /// Take the event; send the drop message first when `publish_drop` holds.
    Capture { publish_drop: bool },
}

/// The status a button is drawn in.
pub open spec fn status_spec(has_on_press: bool, mouse_over: bool, is_pressed: bool) -> Status {
    if !has_on_press {
        Status::Disabled
    } else if mouse_over {
        if is_pressed { Status::Pressed } else { Status::Hovered }
    } else {
        Status::Active
    }
}

/// The cursor is a pointer over a button that can be pressed.
pub open spec fn pointer_spec(mouse_over: bool, has_on_press: bool) -> bool {
    mouse_over && has_on_press
}

/// The style variant drawn for each status.
pub open spec fn style_kind_spec(status: Status) -> StyleKind {
    match status {
        Status::Active | Status::Pressed => StyleKind::Base,
        Status::Hovered => StyleKind::Highlighted,
        Status::Disabled => StyleKind::Dimmed,
    }
}

/// The status a button is drawn in: disabled without a press message, otherwise
/// pressed or hovered under the cursor, and active elsewhere.
pub fn button_status(has_on_press: bool, mouse_over: bool, is_pressed: bool) -> (s: Status)
    ensures
        s == status_spec(has_on_press, mouse_over, is_pressed),
{
    if !has_on_press {
        Status::Disabled
    } else if mouse_over {
        if is_pressed { Status::Pressed } else { Status::Hovered }
    } else {
        Status::Active
    }
}

/// Whether the cursor is drawn as a pointer over a button: only over one that can be pressed.
pub fn shows_pointer(mouse_over: bool, has_on_press: bool) -> (r: bool)
    ensures
        r == pointer_spec(mouse_over, has_on_press),
{
    mouse_over && has_on_press
}

/// The style variant of the built-in button styles (primary, secondary, success,
/// danger, text): the base style when active or pressed, the highlighted one when
/// hovered, and the dimmed base when disabled.
pub fn style_kind(status: Status) -> (k: StyleKind)
    ensures
        k == style_kind_spec(status),
{
    match status {
        Status::Active | Status::Pressed => StyleKind::Base,
        Status::Hovered => StyleKind::Highlighted,
        Status::Disabled => StyleKind::Dimmed,
    }
}

/// How a draggable button answers an event, given whether it is dragging and whether it
/// has a press message: the status, the effect, and whether it is dragging afterwards.
/// A left press over the button starts a drag; a move drags the overlay along; a left
/// release ends the drag and, where the release ends a drag that the button started
/// and the button has a press message, sends that message.
pub open spec fn button_event_spec(
    dragging: bool,
    event: PointerEvent,
    cursor_over: bool,
    has_on_press: bool,
) -> (EventStatus, ButtonEffect, bool) {
    match event {
        PointerEvent::LeftPressed => if cursor_over {
            (EventStatus::Captured, ButtonEffect::StartDrag, true)
        } else {
            (EventStatus::Ignored, ButtonEffect::NoEffect, dragging)
        },
        PointerEvent::Moved => (EventStatus::Ignored, ButtonEffect::MoveOverlay, dragging),
        PointerEvent::LeftReleased => if dragging && has_on_press {
            (EventStatus::Ignored, ButtonEffect::PublishPress, false)
        } else {
            (EventStatus::Ignored, ButtonEffect::NoEffect, false)
        },
        _ => (EventStatus::Ignored, ButtonEffect::NoEffect, dragging),
    }
}

/// The state a draggable button keeps between events. The button is pressed while it is
/// dragged: from a left press over it until the next left release.
#[derive(Debug)]
pub struct DragState {
    pub dragging: bool,
}

impl DragState {
    /// A button that is not being dragged.
    pub fn new() -> (s: DragState)
        ensures
            !s.dragging,
    {
        DragState { dragging: false }
    }

    /// Answers an event: a left press over the button starts a drag and is captured,
    /// a move drags the overlay along, a left release ends the drag and sends the press
    /// message where the button has one and was dragging; every other event, and a
    /// press beside the button, passes.
    pub fn on_event(&mut self, event: PointerEvent, cursor_over: bool, has_on_press: bool) -> (r: (
        EventStatus,
        ButtonEffect,
    ))
        ensures
            (r.0, r.1, final(self).dragging) == button_event_spec(
                old(self).dragging,
                event,
                cursor_over,
                has_on_press,
            ),
    {
        match event {
            PointerEvent::LeftPressed => {
                if cursor_over {
                    self.dragging = true;
                    (EventStatus::Captured, ButtonEffect::StartDrag)
                } else {
                    (EventStatus::Ignored, ButtonEffect::NoEffect)
                }
            },
            PointerEvent::Moved => (EventStatus::Ignored, ButtonEffect::MoveOverlay),
            PointerEvent::LeftReleased => {
                let publish = self.dragging && has_on_press;
                self.dragging = false;
                if publish {
                    (EventStatus::Ignored, ButtonEffect::PublishPress)
                } else {
                    (EventStatus::Ignored, ButtonEffect::NoEffect)
                }
            },
            _ => (EventStatus::Ignored, ButtonEffect::NoEffect),
        }
    }

    /// Whether the dragged copy of the button is drawn as an overlay.
    pub fn shows_overlay(&self) -> (r: bool)
        ensures
            r == self.dragging,
    {
        self.dragging
    }

    /// The status the button is drawn in: it counts as pressed while it is dragged.
    pub fn status(&self, has_on_press: bool, mouse_over: bool) -> (s: Status)
        ensures
            s == status_spec(has_on_press, mouse_over, self.dragging),
    {
        button_status(has_on_press, mouse_over, self.dragging)
    }
}

/// How a drop pane answers an event.
pub open spec fn pane_event_spec(event: PointerEvent, cursor_over: bool, has_on_drop: bool) -> PaneReaction {
    match event {
        PointerEvent::RightPressed => PaneReaction::Ignore { report_bounds: cursor_over },
        PointerEvent::LeftPressed => PaneReaction::ForwardToContent,
        PointerEvent::LeftReleased => PaneReaction::Capture { publish_drop: has_on_drop && cursor_over },
        _ => PaneReaction::Ignore { report_bounds: false },
    }
}

/// How a drop pane answers an event: a release of the left button is captured and,
/// over the pane, sends its drop message; a right press over it reports the bounds;
/// a left press goes on to the content; everything else passes.
pub fn pane_on_event(event: PointerEvent, cursor_over: bool, has_on_drop: bool) -> (r: PaneReaction)
    ensures
        r == pane_event_spec(event, cursor_over, has_on_drop),
{
    match event {
        PointerEvent::RightPressed => PaneReaction::Ignore { report_bounds: cursor_over },
        PointerEvent::LeftPressed => PaneReaction::ForwardToContent,
        PointerEvent::LeftReleased => PaneReaction::Capture { publish_drop: has_on_drop && cursor_over },
        _ => PaneReaction::Ignore { report_bounds: false },
    }
}

/// A press over a draggable button starts a drag and is captured; the release that
/// follows ends the drag and sends the press message exactly when the button has one.
pub proof fn lemma_press_then_release(dragging: bool, cursor_over: bool, has_on_press: bool)
    ensures
        button_event_spec(dragging, PointerEvent::LeftPressed, true, has_on_press) == (
            EventStatus::Captured,
            ButtonEffect::StartDrag,
            true,
        ),
        button_event_spec(true, PointerEvent::LeftReleased, cursor_over, has_on_press).2 == false,
        button_event_spec(true, PointerEvent::LeftReleased, cursor_over, has_on_press).1 == (
            if has_on_press { ButtonEffect::PublishPress } else { ButtonEffect::NoEffect }),
{
}

/// A button that can be pressed is drawn pressed from a left press over it while the
/// cursor stays over it, up to the next left release, after which it is drawn hovered.
pub proof fn lemma_pressed_while_dragged(dragging: bool, cursor_over: bool)
    ensures
        status_spec(true, true, button_event_spec(dragging, PointerEvent::LeftPressed, true, true).2)
            == Status::Pressed,
        status_spec(true, true, button_event_spec(true, PointerEvent::Moved, cursor_over, true).2)
            == Status::Pressed,
        status_spec(true, true, button_event_spec(true, PointerEvent::LeftReleased, cursor_over, true).2)
            == Status::Hovered,
{
}

/// Only left presses and left releases change whether a button is being dragged, and
/// only a left release sends the press message.
pub proof fn lemma_drag_changes_only_on_left_button(
    dragging: bool,
    event: PointerEvent,
    cursor_over: bool,
    has_on_press: bool,
)
    requires
        event != PointerEvent::LeftPressed,
        event != PointerEvent::LeftReleased,
    ensures
        button_event_spec(dragging, event, cursor_over, has_on_press).2 == dragging,
        button_event_spec(dragging, event, cursor_over, has_on_press).0 == EventStatus::Ignored,
        button_event_spec(dragging, event, cursor_over, has_on_press).1 != ButtonEffect::PublishPress,
{
}

/// Every cursor move drags the overlay along: it is let pass, and it neither starts nor
/// ends a drag, wherever the cursor is and whether or not the button has a press message.
pub proof fn lemma_move_drags_overlay(dragging: bool, cursor_over: bool, has_on_press: bool)
    ensures
        button_event_spec(dragging, PointerEvent::Moved, cursor_over, has_on_press) == (
            EventStatus::Ignored,
            ButtonEffect::MoveOverlay,
            dragging,
        ),
{
}

/// What a draggable button does with each event: only a left press over it is
/// captured, and it starts a drag; a left release always ends the drag and sends the
/// press message exactly when a drag was on and there is a message; a move drags the
/// overlay; everything else leaves the button as it was.
pub proof fn lemma_button_answers(dragging: bool, event: PointerEvent, cursor_over: bool, has_on_press: bool)
    ensures
        (button_event_spec(dragging, event, cursor_over, has_on_press).0 == EventStatus::Captured)
            <==> (event == PointerEvent::LeftPressed && cursor_over),
        (button_event_spec(dragging, event, cursor_over, has_on_press).1 == ButtonEffect::StartDrag)
            <==> (event == PointerEvent::LeftPressed && cursor_over),
        (button_event_spec(dragging, event, cursor_over, has_on_press).1 == ButtonEffect::PublishPress)
            <==> (event == PointerEvent::LeftReleased && dragging && has_on_press),
        (button_event_spec(dragging, event, cursor_over, has_on_press).1 == ButtonEffect::MoveOverlay)
            <==> event == PointerEvent::Moved,
        event == PointerEvent::LeftPressed && cursor_over ==> button_event_spec(
            dragging,
            event,
            cursor_over,
            has_on_press,
        ).2,
        event == PointerEvent::LeftReleased ==> !button_event_spec(dragging, event, cursor_over, has_on_press).2,
        !(event == PointerEvent::LeftPressed && cursor_over) && event != PointerEvent::LeftReleased
            ==> button_event_spec(dragging, event, cursor_over, has_on_press).2 == dragging,
{
}

/// The status a button is drawn in: disabled exactly without a press message; otherwise
/// pressed exactly when pressed under the cursor, hovered when under the cursor and not
/// pressed, and active away from the cursor.
pub proof fn lemma_status(has_on_press: bool, mouse_over: bool, is_pressed: bool)
    ensures
        (status_spec(has_on_press, mouse_over, is_pressed) == Status::Disabled) <==> !has_on_press,
        (status_spec(has_on_press, mouse_over, is_pressed) == Status::Pressed) <==> (has_on_press
            && mouse_over && is_pressed),
        (status_spec(has_on_press, mouse_over, is_pressed) == Status::Hovered) <==> (has_on_press
            && mouse_over && !is_pressed),
        (status_spec(has_on_press, mouse_over, is_pressed) == Status::Active) <==> (has_on_press
            && !mouse_over),
{
}

/// What a drop pane does with each event: a left release is always taken, a right
/// press over it reports the bounds, a left press goes to the content, and everything
/// else passes without reporting.
pub proof fn lemma_pane_answers(event: PointerEvent, cursor_over: bool, has_on_drop: bool)
    ensures
        (pane_event_spec(event, cursor_over, has_on_drop) is Capture) <==> event == PointerEvent::LeftReleased,
        (pane_event_spec(event, cursor_over, has_on_drop) == PaneReaction::ForwardToContent) <==> event
            == PointerEvent::LeftPressed,
        (pane_event_spec(event, cursor_over, has_on_drop) == (PaneReaction::Ignore { report_bounds: true }))
            <==> (event == PointerEvent::RightPressed && cursor_over),
{
}

/// The cursor is a pointer exactly over a button that can be pressed; a button is drawn
/// highlighted exactly when hovered, dimmed exactly when disabled, and in its base style
/// when active or pressed.
pub proof fn lemma_pointer_and_style(mouse_over: bool, has_on_press: bool, status: Status)
    ensures
        pointer_spec(mouse_over, has_on_press) ==> mouse_over && has_on_press,
        mouse_over && has_on_press ==> pointer_spec(mouse_over, has_on_press),
        (style_kind_spec(status) == StyleKind::Highlighted) <==> status == Status::Hovered,
        (style_kind_spec(status) == StyleKind::Dimmed) <==> status == Status::Disabled,
        (style_kind_spec(status) == StyleKind::Base) <==> (status == Status::Active || status
            == Status::Pressed),
{
}

/// A drop pane sends its drop message exactly on a left release over it, when it has one.
pub proof fn lemma_pane_drop(event: PointerEvent, cursor_over: bool, has_on_drop: bool)
    ensures
        pane_event_spec(event, cursor_over, has_on_drop) == (PaneReaction::Capture { publish_drop: true })
            <==> (event == PointerEvent::LeftReleased && cursor_over && has_on_drop),
{
}

} // verus!
