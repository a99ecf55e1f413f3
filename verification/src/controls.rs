use crate::parameter::ParameterChange;
use vstd::prelude::*;

verus! {

/// The page of the hardware interface that the controls act on.
#[derive(Clone, Copy, Debug, PartialEq, Eq, Structural)]
pub enum Mode {
    EngineMain,
    EngineLFO,
    EngineEnvelope,
    FiltersMain,
    FilterDetail,
    EffectsMain,
    EffectsDetail,
}

/// An input of the hardware controls: the navigation pad and four rotary encoders.
#[derive(Clone, Copy, Debug, PartialEq, Eq, Structural)]
pub enum ControlEvent {
    NavigationUp,
    NavigationDown,
    NavigationLeft,
    NavigationRight,
    NavigationEnter,
    Encoder1Clockwise,
    Encoder1Counterclockwise,
    Encoder1Click,
    Encoder2Clockwise,
    Encoder2Counterclockwise,
    Encoder2Click,
    Encoder3Clockwise,
    Encoder3Counterclockwise,
    Encoder3Click,
    Encoder4Clockwise,
    Encoder4Counterclockwise,
    Encoder4Click,
}

/// What a control event asks for: another page, another position in the filter
/// row, a step of an engine parameter, or nothing.
#[derive(Clone, Copy, Debug, PartialEq, Eq, Structural)]
pub enum ControlAction {
    SetMode(Mode),
    SetNavigation(usize),
    UpdateParameter(usize, ParameterChange),
    Nothing,
}

/// A key of the simulator's keyboard that stands in for a hardware control.
#[derive(Clone, Copy, Debug, PartialEq, Eq, Structural)]
pub enum NavKey {
    Up,
    Down,
    Left,
    Right,
    Return,
    Num1,
    Num2,
    Num3,
    Num4,
    Other,
}

/// The modifier bits of the left and right Shift and Ctrl keys.
pub const LEFT_SHIFT: u16 = 0x0001;

pub const RIGHT_SHIFT: u16 = 0x0002;

pub const LEFT_CTRL: u16 = 0x0040;

pub const RIGHT_CTRL: u16 = 0x0080;

pub open spec fn shift_held(keymod: u16) -> bool {
    keymod & LEFT_SHIFT != 0 || keymod & RIGHT_SHIFT != 0
}

pub open spec fn ctrl_held(keymod: u16) -> bool {
    keymod & LEFT_CTRL != 0 || keymod & RIGHT_CTRL != 0
}

/// An encoder key turns its encoder counterclockwise with Shift, clicks it with
/// Ctrl, and turns it clockwise otherwise.
pub open spec fn encoder_event(
    keymod: u16,
    counterclockwise: ControlEvent,
    click: ControlEvent,
    clockwise: ControlEvent,
) -> ControlEvent {
    if shift_held(keymod) {
        counterclockwise
    } else if ctrl_held(keymod) {
        click
    } else {
        clockwise
    }
}

pub open spec fn spec_navigation_event_for_key(key: NavKey, keymod: u16) -> Option<ControlEvent> {
    match key {
        NavKey::Up => Some(ControlEvent::NavigationUp),
        NavKey::Down => Some(ControlEvent::NavigationDown),
        NavKey::Left => Some(ControlEvent::NavigationLeft),
        NavKey::Right => Some(ControlEvent::NavigationRight),
        NavKey::Return => Some(ControlEvent::NavigationEnter),
        NavKey::Num1 => Some(
            encoder_event(
                keymod,
                ControlEvent::Encoder1Counterclockwise,
                ControlEvent::Encoder1Click,
                ControlEvent::Encoder1Clockwise,
            ),
        ),
        NavKey::Num2 => Some(
            encoder_event(
                keymod,
                ControlEvent::Encoder2Counterclockwise,
                ControlEvent::Encoder2Click,
                ControlEvent::Encoder2Clockwise,
            ),
        ),
        NavKey::Num3 => Some(
            encoder_event(
                keymod,
                ControlEvent::Encoder3Counterclockwise,
                ControlEvent::Encoder3Click,
                ControlEvent::Encoder3Clockwise,
            ),
        ),
        NavKey::Num4 => Some(
            encoder_event(
                keymod,
                ControlEvent::Encoder4Counterclockwise,
                ControlEvent::Encoder4Click,
                ControlEvent::Encoder4Clockwise,
            ),
        ),
        NavKey::Other => None,
    }
}

fn shift_pressed(keymod: u16) -> (held: bool)
    ensures
        held == shift_held(keymod),
{
    keymod & LEFT_SHIFT != 0 || keymod & RIGHT_SHIFT != 0
}

fn ctrl_pressed(keymod: u16) -> (held: bool)
    ensures
        held == ctrl_held(keymod),
{
    keymod & LEFT_CTRL != 0 || keymod & RIGHT_CTRL != 0
}

/// The control event that a simulator key stands for, given the modifier bits.
pub fn navigation_event_for_key(keycode: NavKey, keymod: u16) -> (event: Option<ControlEvent>)
    ensures
        event == spec_navigation_event_for_key(keycode, keymod),
{
    match keycode {
        NavKey::Up => Some(ControlEvent::NavigationUp),
        NavKey::Down => Some(ControlEvent::NavigationDown),
        NavKey::Left => Some(ControlEvent::NavigationLeft),
        NavKey::Right => Some(ControlEvent::NavigationRight),
        NavKey::Return => Some(ControlEvent::NavigationEnter),
        NavKey::Num1 => {
            if shift_pressed(keymod) {
                return Some(ControlEvent::Encoder1Counterclockwise);
            }
            if ctrl_pressed(keymod) {
                return Some(ControlEvent::Encoder1Click);
            }
            Some(ControlEvent::Encoder1Clockwise)
        },
        NavKey::Num2 => {
            if shift_pressed(keymod) {
                return Some(ControlEvent::Encoder2Counterclockwise);
            }
            if ctrl_pressed(keymod) {
                return Some(ControlEvent::Encoder2Click);
            }
            Some(ControlEvent::Encoder2Clockwise)
        },
        NavKey::Num3 => {
            if shift_pressed(keymod) {
                return Some(ControlEvent::Encoder3Counterclockwise);
            }
            if ctrl_pressed(keymod) {
                return Some(ControlEvent::Encoder3Click);
            }
            Some(ControlEvent::Encoder3Clockwise)
        },
        NavKey::Num4 => {
            if shift_pressed(keymod) {
                return Some(ControlEvent::Encoder4Counterclockwise);
            }
            if ctrl_pressed(keymod) {
                return Some(ControlEvent::Encoder4Click);
            }
            Some(ControlEvent::Encoder4Clockwise)
        },
        NavKey::Other => None,
    }
}

/// The engine's main page: right goes to the LFO page; encoders 1 to 3 step the
/// carrier ratio, the modulator ratio and the modulation index.
pub open spec fn spec_engine_main(event: ControlEvent) -> ControlAction {
    match event {
        ControlEvent::NavigationRight => ControlAction::SetMode(Mode::EngineLFO),
        ControlEvent::Encoder1Clockwise => ControlAction::UpdateParameter(0, ParameterChange::Increment),
        ControlEvent::Encoder1Counterclockwise => ControlAction::UpdateParameter(0, ParameterChange::Decrement),
        ControlEvent::Encoder2Clockwise => ControlAction::UpdateParameter(1, ParameterChange::Increment),
        ControlEvent::Encoder2Counterclockwise => ControlAction::UpdateParameter(1, ParameterChange::Decrement),
        ControlEvent::Encoder3Clockwise => ControlAction::UpdateParameter(2, ParameterChange::Increment),
        ControlEvent::Encoder3Counterclockwise => ControlAction::UpdateParameter(2, ParameterChange::Decrement),
        _ => ControlAction::Nothing,
    }
}

/// The LFO page: left and right go to the neighbouring pages; encoders 1 and 2
/// step the LFO amplitude and frequency.
pub open spec fn spec_engine_lfo(event: ControlEvent) -> ControlAction {
    match event {
        ControlEvent::NavigationLeft => ControlAction::SetMode(Mode::EngineMain),
        ControlEvent::NavigationRight => ControlAction::SetMode(Mode::EngineEnvelope),
        ControlEvent::Encoder1Clockwise => ControlAction::UpdateParameter(3, ParameterChange::Increment),
        ControlEvent::Encoder1Counterclockwise => ControlAction::UpdateParameter(3, ParameterChange::Decrement),
        ControlEvent::Encoder2Clockwise => ControlAction::UpdateParameter(4, ParameterChange::Increment),
        ControlEvent::Encoder2Counterclockwise => ControlAction::UpdateParameter(4, ParameterChange::Decrement),
        _ => ControlAction::Nothing,
    }
}

/// The envelope page: left and right go to the neighbouring pages; encoders 1
/// to 4 step attack, decay, sustain and release, the fourth one reversed.
pub open spec fn spec_engine_envelope(event: ControlEvent) -> ControlAction {
    match event {
        ControlEvent::NavigationLeft => ControlAction::SetMode(Mode::EngineLFO),
        ControlEvent::NavigationRight => ControlAction::SetMode(Mode::FiltersMain),
        ControlEvent::Encoder1Clockwise => ControlAction::UpdateParameter(5, ParameterChange::Increment),
        ControlEvent::Encoder1Counterclockwise => ControlAction::UpdateParameter(5, ParameterChange::Decrement),
        ControlEvent::Encoder2Clockwise => ControlAction::UpdateParameter(6, ParameterChange::Increment),
        ControlEvent::Encoder2Counterclockwise => ControlAction::UpdateParameter(6, ParameterChange::Decrement),
        ControlEvent::Encoder3Clockwise => ControlAction::UpdateParameter(7, ParameterChange::Increment),
        ControlEvent::Encoder3Counterclockwise => ControlAction::UpdateParameter(7, ParameterChange::Decrement),
        ControlEvent::Encoder4Clockwise => ControlAction::UpdateParameter(8, ParameterChange::Decrement),
        ControlEvent::Encoder4Counterclockwise => ControlAction::UpdateParameter(8, ParameterChange::Increment),
        _ => ControlAction::Nothing,
    }
}

/// The filters page. At position 0 left and right go to the neighbouring pages
/// and up enters the row of filters; in the row left and right move along it
/// (not left of the first filter), down leaves it and enter opens the filter.
pub open spec fn spec_filters_main(location: usize, event: ControlEvent) -> ControlAction {
    if location == 0 {
        match event {
            ControlEvent::NavigationLeft => ControlAction::SetMode(Mode::EngineEnvelope),
            ControlEvent::NavigationRight => ControlAction::SetMode(Mode::EffectsMain),
            ControlEvent::NavigationUp => ControlAction::SetNavigation(1),
            _ => ControlAction::Nothing,
        }
    } else {
        match event {
            ControlEvent::NavigationLeft => if location == 1 {
                ControlAction::Nothing
            } else {
                ControlAction::SetNavigation((location - 1) as usize)
            },
            ControlEvent::NavigationRight => ControlAction::SetNavigation((location + 1) as usize),
            ControlEvent::NavigationDown => ControlAction::SetNavigation(0),
            ControlEvent::NavigationEnter => ControlAction::SetMode(Mode::FilterDetail),
            _ => ControlAction::Nothing,
        }
    }
}

/// What an event does on each page; the filter detail and effects pages do not
/// react yet.
pub open spec fn spec_control_action(mode: Mode, location: usize, event: ControlEvent) -> ControlAction {
    match mode {
        Mode::EngineMain => spec_engine_main(event),
        Mode::EngineLFO => spec_engine_lfo(event),
        Mode::EngineEnvelope => spec_engine_envelope(event),
        Mode::FiltersMain => spec_filters_main(location, event),
        _ => ControlAction::Nothing,
    }
}

pub fn engine_main_handler(control_event: ControlEvent) -> (action: ControlAction)
    ensures
        action == spec_engine_main(control_event),
{
    match control_event {
        ControlEvent::NavigationRight => ControlAction::SetMode(Mode::EngineLFO),
        ControlEvent::Encoder1Clockwise => ControlAction::UpdateParameter(0, ParameterChange::Increment),
        ControlEvent::Encoder1Counterclockwise => ControlAction::UpdateParameter(0, ParameterChange::Decrement),
        ControlEvent::Encoder2Clockwise => ControlAction::UpdateParameter(1, ParameterChange::Increment),
        ControlEvent::Encoder2Counterclockwise => ControlAction::UpdateParameter(1, ParameterChange::Decrement),
        ControlEvent::Encoder3Clockwise => ControlAction::UpdateParameter(2, ParameterChange::Increment),
        ControlEvent::Encoder3Counterclockwise => ControlAction::UpdateParameter(2, ParameterChange::Decrement),
        _ => ControlAction::Nothing,
    }
}

pub fn engine_lfo_handler(control_event: ControlEvent) -> (action: ControlAction)
    ensures
        action == spec_engine_lfo(control_event),
{
    match control_event {
        ControlEvent::NavigationLeft => ControlAction::SetMode(Mode::EngineMain),
        ControlEvent::NavigationRight => ControlAction::SetMode(Mode::EngineEnvelope),
        ControlEvent::Encoder1Clockwise => ControlAction::UpdateParameter(3, ParameterChange::Increment),
        ControlEvent::Encoder1Counterclockwise => ControlAction::UpdateParameter(3, ParameterChange::Decrement),
        ControlEvent::Encoder2Clockwise => ControlAction::UpdateParameter(4, ParameterChange::Increment),
        ControlEvent::Encoder2Counterclockwise => ControlAction::UpdateParameter(4, ParameterChange::Decrement),
        _ => ControlAction::Nothing,
    }
}

pub fn engine_envelope_handler(control_event: ControlEvent) -> (action: ControlAction)
    ensures
        action == spec_engine_envelope(control_event),
{
    match control_event {
        ControlEvent::NavigationLeft => ControlAction::SetMode(Mode::EngineLFO),
        ControlEvent::NavigationRight => ControlAction::SetMode(Mode::FiltersMain),
        ControlEvent::Encoder1Clockwise => ControlAction::UpdateParameter(5, ParameterChange::Increment),
        ControlEvent::Encoder1Counterclockwise => ControlAction::UpdateParameter(5, ParameterChange::Decrement),
        ControlEvent::Encoder2Clockwise => ControlAction::UpdateParameter(6, ParameterChange::Increment),
        ControlEvent::Encoder2Counterclockwise => ControlAction::UpdateParameter(6, ParameterChange::Decrement),
        ControlEvent::Encoder3Clockwise => ControlAction::UpdateParameter(7, ParameterChange::Increment),
        ControlEvent::Encoder3Counterclockwise => ControlAction::UpdateParameter(7, ParameterChange::Decrement),
        ControlEvent::Encoder4Clockwise => ControlAction::UpdateParameter(8, ParameterChange::Decrement),
        ControlEvent::Encoder4Counterclockwise => ControlAction::UpdateParameter(8, ParameterChange::Increment),
        _ => ControlAction::Nothing,
    }
}

pub fn filters_main_handler(navigation_location: usize, control_event: ControlEvent) -> (action:
    ControlAction)
    requires
        navigation_location == usize::MAX ==> control_event != ControlEvent::NavigationRight,
    ensures
        action == spec_filters_main(navigation_location, control_event),
{
    match navigation_location {
        0 => match control_event {
            ControlEvent::NavigationLeft => ControlAction::SetMode(Mode::EngineEnvelope),
            ControlEvent::NavigationRight => ControlAction::SetMode(Mode::EffectsMain),
            ControlEvent::NavigationUp => ControlAction::SetNavigation(1),
            _ => ControlAction::Nothing,
        },
        _ => match control_event {
            ControlEvent::NavigationLeft => match navigation_location {
                1 => ControlAction::Nothing,
                _ => ControlAction::SetNavigation(navigation_location - 1),
            },
            ControlEvent::NavigationRight => ControlAction::SetNavigation(navigation_location + 1),
            ControlEvent::NavigationDown => ControlAction::SetNavigation(0),
            ControlEvent::NavigationEnter => ControlAction::SetMode(Mode::FilterDetail),
            _ => ControlAction::Nothing,
        },
    }
}

/// Decides what a control event does on the current page, given the position in
/// the filter row.
pub fn control_handler(mode: Mode, navigation_location: usize, event: ControlEvent) -> (action:
    ControlAction)
    requires
        mode == Mode::FiltersMain && navigation_location == usize::MAX ==> event
            != ControlEvent::NavigationRight,
    ensures
        action == spec_control_action(mode, navigation_location, event),
{
    match mode {
        Mode::EngineMain => engine_main_handler(event),
        Mode::EngineLFO => engine_lfo_handler(event),
        Mode::EngineEnvelope => engine_envelope_handler(event),
        Mode::FiltersMain => filters_main_handler(navigation_location, event),
        Mode::FilterDetail => ControlAction::Nothing,
        Mode::EffectsMain => ControlAction::Nothing,
        Mode::EffectsDetail => ControlAction::Nothing,
    }
}

/// Whether an event comes from a rotary encoder rather than the navigation pad.
pub open spec fn is_encoder_event(event: ControlEvent) -> bool {
    !(event == ControlEvent::NavigationUp || event == ControlEvent::NavigationDown || event
        == ControlEvent::NavigationLeft || event == ControlEvent::NavigationRight || event
        == ControlEvent::NavigationEnter)
}

/// Right leads from each engine page to the next and left leads back, through the
/// main, LFO and envelope pages to the filters page (at its first position).
pub proof fn law_page_navigation_round_trip(mode: Mode)
    requires
        mode == Mode::EngineMain || mode == Mode::EngineLFO || mode == Mode::EngineEnvelope,
    ensures
        spec_control_action(mode, 0, ControlEvent::NavigationRight) is SetMode,
        spec_control_action(
            spec_control_action(mode, 0, ControlEvent::NavigationRight)->SetMode_0,
            0,
            ControlEvent::NavigationLeft,
        ) == ControlAction::SetMode(mode),
{
}

/// Encoders never change the page or the filter position, and the navigation pad
/// never steps a parameter.
pub proof fn law_encoders_only_step_parameters(mode: Mode, location: usize, event: ControlEvent)
    ensures
        is_encoder_event(event) ==> (spec_control_action(mode, location, event) is UpdateParameter
            || spec_control_action(mode, location, event) is Nothing),
        !is_encoder_event(event) ==> !(spec_control_action(
            mode,
            location,
            event,
        ) is UpdateParameter),
{
}

/// Each engine page steps its own parameters: the main page 0 to 2, the LFO page
/// 3 and 4, the envelope page 5 to 8.
pub proof fn law_page_parameters(mode: Mode, location: usize, event: ControlEvent)
    ensures
        spec_control_action(mode, location, event) matches ControlAction::UpdateParameter(i, _)
            ==> match mode {
            Mode::EngineMain => i <= 2,
            Mode::EngineLFO => 3 <= i <= 4,
            Mode::EngineEnvelope => 5 <= i <= 8,
            _ => false,
        },
{
}

/// In the filter row, left undoes right, and down always returns to the page's
/// first position.
pub proof fn law_filter_row_round_trip(location: usize)
    requires
        1 <= location < usize::MAX,
    ensures
        spec_filters_main(location, ControlEvent::NavigationRight) == ControlAction::SetNavigation(
            (location + 1) as usize,
        ),
        spec_filters_main((location + 1) as usize, ControlEvent::NavigationLeft)
            == ControlAction::SetNavigation(location),
        spec_filters_main(location, ControlEvent::NavigationDown) == ControlAction::SetNavigation(
            0,
        ),
{
}

/// The pages follow one another as main, LFO, envelope, filters: right steps
/// forward along them and left steps back (from the filters page at its first
/// position); left of the main page there is nothing, right of the filters page
/// come the effects.
pub proof fn law_page_order(location: usize)
    ensures
        spec_control_action(Mode::EngineMain, location, ControlEvent::NavigationRight)
            == ControlAction::SetMode(Mode::EngineLFO),
        spec_control_action(Mode::EngineLFO, location, ControlEvent::NavigationRight)
            == ControlAction::SetMode(Mode::EngineEnvelope),
        spec_control_action(Mode::EngineEnvelope, location, ControlEvent::NavigationRight)
            == ControlAction::SetMode(Mode::FiltersMain),
        spec_control_action(Mode::FiltersMain, 0, ControlEvent::NavigationRight)
            == ControlAction::SetMode(Mode::EffectsMain),
        spec_control_action(Mode::FiltersMain, 0, ControlEvent::NavigationLeft)
            == ControlAction::SetMode(Mode::EngineEnvelope),
        spec_control_action(Mode::EngineEnvelope, location, ControlEvent::NavigationLeft)
            == ControlAction::SetMode(Mode::EngineLFO),
        spec_control_action(Mode::EngineLFO, location, ControlEvent::NavigationLeft)
            == ControlAction::SetMode(Mode::EngineMain),
        spec_control_action(Mode::EngineMain, location, ControlEvent::NavigationLeft)
            == ControlAction::Nothing,
        spec_control_action(Mode::EngineMain, location, ControlEvent::NavigationUp)
            == ControlAction::Nothing,
        spec_control_action(Mode::EngineMain, location, ControlEvent::NavigationDown)
            == ControlAction::Nothing,
{
}

/// The filter detail and effects pages ignore every event.
pub proof fn law_unfinished_pages(location: usize, event: ControlEvent)
    ensures
        spec_control_action(Mode::FilterDetail, location, event) == ControlAction::Nothing,
        spec_control_action(Mode::EffectsMain, location, event) == ControlAction::Nothing,
        spec_control_action(Mode::EffectsDetail, location, event) == ControlAction::Nothing,
{
}

/// On the filters page: up from the page's first position enters the filter row
/// at its first filter; in the row, left stops at the first filter, enter opens
/// the focused filter, and encoders do nothing.
pub proof fn law_filters_page(location: usize, event: ControlEvent)
    ensures
        spec_control_action(Mode::FiltersMain, 0, ControlEvent::NavigationUp)
            == ControlAction::SetNavigation(1),
        spec_control_action(Mode::FiltersMain, 0, ControlEvent::NavigationDown)
            == ControlAction::Nothing,
        spec_control_action(Mode::FiltersMain, 1, ControlEvent::NavigationLeft)
            == ControlAction::Nothing,
        location >= 1 ==> spec_control_action(Mode::FiltersMain, location, ControlEvent::NavigationEnter)
            == ControlAction::SetMode(Mode::FilterDetail),
        location >= 1 ==> spec_control_action(Mode::FiltersMain, location, ControlEvent::NavigationUp)
            == ControlAction::Nothing,
        is_encoder_event(event) ==> spec_control_action(Mode::FiltersMain, location, event)
            == ControlAction::Nothing,
{
}

/// Encoder `k` (1 to 4) turned clockwise.
pub open spec fn encoder_clockwise(k: nat) -> ControlEvent {
    if k == 1 {
        ControlEvent::Encoder1Clockwise
    } else if k == 2 {
        ControlEvent::Encoder2Clockwise
    } else if k == 3 {
        ControlEvent::Encoder3Clockwise
    } else {
        ControlEvent::Encoder4Clockwise
    }
}

/// Encoder `k` (1 to 4) turned counterclockwise.
pub open spec fn encoder_counterclockwise(k: nat) -> ControlEvent {
    if k == 1 {
        ControlEvent::Encoder1Counterclockwise
    } else if k == 2 {
        ControlEvent::Encoder2Counterclockwise
    } else if k == 3 {
        ControlEvent::Encoder3Counterclockwise
    } else {
        ControlEvent::Encoder4Counterclockwise
    }
}

/// Encoder `k` (1 to 4) clicked.
pub open spec fn encoder_click(k: nat) -> ControlEvent {
    if k == 1 {
        ControlEvent::Encoder1Click
    } else if k == 2 {
        ControlEvent::Encoder2Click
    } else if k == 3 {
        ControlEvent::Encoder3Click
    } else {
        ControlEvent::Encoder4Click
    }
}

/// The number key of encoder `k` (1 to 4).
pub open spec fn encoder_key(k: nat) -> NavKey {
    if k == 1 {
        NavKey::Num1
    } else if k == 2 {
        NavKey::Num2
    } else if k == 3 {
        NavKey::Num3
    } else {
        NavKey::Num4
    }
}

/// On the engine's main page encoder `k` (1 to 3) steps parameter `k - 1`:
/// clockwise up, counterclockwise down; encoder 4 and the clicks do nothing.
pub proof fn law_engine_main_encoders(k: nat, location: usize)
    requires
        1 <= k <= 3,
    ensures
        spec_control_action(Mode::EngineMain, location, encoder_clockwise(k))
            == ControlAction::UpdateParameter((k - 1) as usize, ParameterChange::Increment),
        spec_control_action(Mode::EngineMain, location, encoder_counterclockwise(k))
            == ControlAction::UpdateParameter((k - 1) as usize, ParameterChange::Decrement),
        spec_control_action(Mode::EngineMain, location, encoder_click(k)) == ControlAction::Nothing,
        spec_control_action(Mode::EngineMain, location, encoder_clockwise(4)) == ControlAction::Nothing,
        spec_control_action(Mode::EngineMain, location, encoder_counterclockwise(4))
            == ControlAction::Nothing,
{
}

/// On the LFO page encoder `k` (1 or 2) steps parameter `k + 2` (the LFO's
/// amplitude, then its frequency): clockwise up, counterclockwise down.
pub proof fn law_engine_lfo_encoders(k: nat, location: usize)
    requires
        1 <= k <= 2,
    ensures
        spec_control_action(Mode::EngineLFO, location, encoder_clockwise(k))
            == ControlAction::UpdateParameter((k + 2) as usize, ParameterChange::Increment),
        spec_control_action(Mode::EngineLFO, location, encoder_counterclockwise(k))
            == ControlAction::UpdateParameter((k + 2) as usize, ParameterChange::Decrement),
        spec_control_action(Mode::EngineLFO, location, encoder_click(k)) == ControlAction::Nothing,
        spec_control_action(Mode::EngineLFO, location, encoder_clockwise(k + 2))
            == ControlAction::Nothing,
{
}

/// On the envelope page encoder `k` (1 to 4) steps parameter `k + 4` (attack,
/// decay, sustain, release). Encoders 1 to 3 step up clockwise and down
/// counterclockwise; the release encoder is wired the other way round.
pub proof fn law_engine_envelope_encoders(k: nat, location: usize)
    requires
        1 <= k <= 4,
    ensures
        k <= 3 ==> spec_control_action(Mode::EngineEnvelope, location, encoder_clockwise(k))
            == ControlAction::UpdateParameter((k + 4) as usize, ParameterChange::Increment),
        k <= 3 ==> spec_control_action(Mode::EngineEnvelope, location, encoder_counterclockwise(k))
            == ControlAction::UpdateParameter((k + 4) as usize, ParameterChange::Decrement),
        k == 4 ==> spec_control_action(Mode::EngineEnvelope, location, encoder_clockwise(k))
            == ControlAction::UpdateParameter(8, ParameterChange::Decrement),
        k == 4 ==> spec_control_action(Mode::EngineEnvelope, location, encoder_counterclockwise(k))
            == ControlAction::UpdateParameter(8, ParameterChange::Increment),
        spec_control_action(Mode::EngineEnvelope, location, encoder_click(k))
            == ControlAction::Nothing,
{
}

/// Each arrow key, and Return, stands for the navigation event of its own
/// direction, whatever modifiers are held.
pub proof fn law_arrow_keys(keymod: u16)
    ensures
        spec_navigation_event_for_key(NavKey::Left, keymod) == Some(ControlEvent::NavigationLeft),
        spec_navigation_event_for_key(NavKey::Right, keymod) == Some(ControlEvent::NavigationRight),
        spec_navigation_event_for_key(NavKey::Up, keymod) == Some(ControlEvent::NavigationUp),
        spec_navigation_event_for_key(NavKey::Down, keymod) == Some(ControlEvent::NavigationDown),
        spec_navigation_event_for_key(NavKey::Return, keymod) == Some(
            ControlEvent::NavigationEnter,
        ),
        spec_navigation_event_for_key(NavKey::Other, keymod) is None,
{
}

/// Number key `k` stands for encoder `k`: turned counterclockwise with either
/// Shift (bits 0x0001, 0x0002), clicked with either Ctrl (bits 0x0040, 0x0080)
/// and no Shift, and turned clockwise with neither.
pub proof fn law_encoder_keys(k: nat, keymod: u16)
    requires
        1 <= k <= 4,
    ensures
        (keymod & 0x0001 != 0 || keymod & 0x0002 != 0) ==> spec_navigation_event_for_key(
            encoder_key(k),
            keymod,
        ) == Some(encoder_counterclockwise(k)),
        !(keymod & 0x0001 != 0 || keymod & 0x0002 != 0) && (keymod & 0x0040 != 0 || keymod
            & 0x0080 != 0) ==> spec_navigation_event_for_key(encoder_key(k), keymod) == Some(
            encoder_click(k),
        ),
        !(keymod & 0x0001 != 0 || keymod & 0x0002 != 0) && !(keymod & 0x0040 != 0 || keymod
            & 0x0080 != 0) ==> spec_navigation_event_for_key(encoder_key(k), keymod) == Some(
            encoder_clockwise(k),
        ),
{
}

} // verus!
