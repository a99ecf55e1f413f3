use synth_sim::controls::{
    control_handler, engine_envelope_handler, engine_lfo_handler, engine_main_handler,
    filters_main_handler, navigation_event_for_key, ControlAction, ControlEvent, Mode, NavKey,
};
use synth_sim::parameter::ParameterChange;

#[test]
fn encoder_keys_with_modifiers() {
    assert_eq!(navigation_event_for_key(NavKey::Num1, 0), Some(ControlEvent::Encoder1Clockwise));
    assert_eq!(
        navigation_event_for_key(NavKey::Num1, 0x0001),
        Some(ControlEvent::Encoder1Counterclockwise)
    );
    assert_eq!(
        navigation_event_for_key(NavKey::Num2, 0x0002),
        Some(ControlEvent::Encoder2Counterclockwise)
    );
    assert_eq!(navigation_event_for_key(NavKey::Num3, 0x0040), Some(ControlEvent::Encoder3Click));
    assert_eq!(navigation_event_for_key(NavKey::Num4, 0x0080), Some(ControlEvent::Encoder4Click));
    // Shift wins over Ctrl
    assert_eq!(
        navigation_event_for_key(NavKey::Num4, 0x0041),
        Some(ControlEvent::Encoder4Counterclockwise)
    );
    // other modifiers are ignored
    assert_eq!(navigation_event_for_key(NavKey::Num2, 0x0100), Some(ControlEvent::Encoder2Clockwise));
    assert_eq!(navigation_event_for_key(NavKey::Return, 0), Some(ControlEvent::NavigationEnter));
    assert_eq!(navigation_event_for_key(NavKey::Up, 1), Some(ControlEvent::NavigationUp));
    assert_eq!(navigation_event_for_key(NavKey::Other, 0), None);
}

#[test]
fn engine_pages_chain() {
    assert_eq!(
        engine_main_handler(ControlEvent::NavigationRight),
        ControlAction::SetMode(Mode::EngineLFO)
    );
    assert_eq!(engine_main_handler(ControlEvent::NavigationLeft), ControlAction::Nothing);
    assert_eq!(
        engine_lfo_handler(ControlEvent::NavigationLeft),
        ControlAction::SetMode(Mode::EngineMain)
    );
    assert_eq!(
        engine_lfo_handler(ControlEvent::NavigationRight),
        ControlAction::SetMode(Mode::EngineEnvelope)
    );
    assert_eq!(
        engine_envelope_handler(ControlEvent::NavigationRight),
        ControlAction::SetMode(Mode::FiltersMain)
    );
    assert_eq!(
        control_handler(Mode::FiltersMain, 0, ControlEvent::NavigationLeft),
        ControlAction::SetMode(Mode::EngineEnvelope)
    );
}

#[test]
fn engine_encoders_step_parameters() {
    assert_eq!(
        engine_main_handler(ControlEvent::Encoder3Counterclockwise),
        ControlAction::UpdateParameter(2, ParameterChange::Decrement)
    );
    assert_eq!(engine_main_handler(ControlEvent::Encoder4Clockwise), ControlAction::Nothing);
    assert_eq!(
        engine_lfo_handler(ControlEvent::Encoder2Clockwise),
        ControlAction::UpdateParameter(4, ParameterChange::Increment)
    );
    assert_eq!(engine_lfo_handler(ControlEvent::Encoder3Clockwise), ControlAction::Nothing);
    assert_eq!(
        engine_envelope_handler(ControlEvent::Encoder1Clockwise),
        ControlAction::UpdateParameter(5, ParameterChange::Increment)
    );
    assert_eq!(
        engine_envelope_handler(ControlEvent::Encoder4Clockwise),
        ControlAction::UpdateParameter(8, ParameterChange::Decrement)
    );
    assert_eq!(
        engine_envelope_handler(ControlEvent::Encoder4Counterclockwise),
        ControlAction::UpdateParameter(8, ParameterChange::Increment)
    );
    assert_eq!(engine_envelope_handler(ControlEvent::Encoder1Click), ControlAction::Nothing);
}

#[test]
fn filter_row_navigation() {
    assert_eq!(
        filters_main_handler(0, ControlEvent::NavigationUp),
        ControlAction::SetNavigation(1)
    );
    assert_eq!(
        filters_main_handler(0, ControlEvent::NavigationRight),
        ControlAction::SetMode(Mode::EffectsMain)
    );
    assert_eq!(filters_main_handler(0, ControlEvent::NavigationDown), ControlAction::Nothing);
    assert_eq!(filters_main_handler(1, ControlEvent::NavigationLeft), ControlAction::Nothing);
    assert_eq!(
        filters_main_handler(3, ControlEvent::NavigationLeft),
        ControlAction::SetNavigation(2)
    );
    assert_eq!(
        filters_main_handler(3, ControlEvent::NavigationRight),
        ControlAction::SetNavigation(4)
    );
    assert_eq!(
        filters_main_handler(3, ControlEvent::NavigationDown),
        ControlAction::SetNavigation(0)
    );
    assert_eq!(
        filters_main_handler(2, ControlEvent::NavigationEnter),
        ControlAction::SetMode(Mode::FilterDetail)
    );
    assert_eq!(filters_main_handler(2, ControlEvent::Encoder1Clockwise), ControlAction::Nothing);
}

#[test]
fn unfinished_pages_ignore_events() {
    for mode in [Mode::FilterDetail, Mode::EffectsMain, Mode::EffectsDetail] {
        assert_eq!(control_handler(mode, 0, ControlEvent::NavigationLeft), ControlAction::Nothing);
        assert_eq!(
            control_handler(mode, 0, ControlEvent::Encoder1Clockwise),
            ControlAction::Nothing
        );
    }
}
