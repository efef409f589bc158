use splitstatus::nightlight::{NightLight, NightLightConfig};
use splitstatus::toggle::{Toggle, ToggleConfig};
use splitstatus::widget::{ClickEvent, MouseButton, State};

fn toggle_config() -> ToggleConfig {
    ToggleConfig {
        interval: Some(5),
        command_on: "touch /tmp/on".to_string(),
        command_off: "rm /tmp/on".to_string(),
        command_state: "test -f /tmp/on".to_string(),
        icon_on: ToggleConfig::default_icon_on(),
        icon_off: ToggleConfig::default_icon_off(),
        text: Some("net".to_string()),
    }
}

fn night_light_config() -> NightLightConfig {
    NightLightConfig {
        interval: None,
        command_on: NightLightConfig::default_command_on(),
        command_off: NightLightConfig::default_command_off(),
        command_state: NightLightConfig::default_command_state(),
        icon_on: NightLightConfig::default_icon_on(),
        icon_off: NightLightConfig::default_icon_off(),
        color_temperature: NightLightConfig::default_color_temperature(),
        text: None,
    }
}

#[test]
fn toggle_defaults_name_the_toggle_icons() {
    assert_eq!(ToggleConfig::default_icon_on(), "toggle_on");
    assert_eq!(ToggleConfig::default_icon_off(), "toggle_off");
}

#[test]
fn toggle_starts_off_with_named_button() {
    let t = Toggle::new(toggle_config());
    assert_eq!(t.id().len(), 32);
    let widgets = t.view();
    assert_eq!(widgets.len(), 1);
    assert_eq!(widgets[0].name(), t.id());
    assert_eq!(widgets[0].text(), "net");
    assert_eq!(widgets[0].icon(), "");
    assert_eq!(widgets[0].state(), State::Idle);
    assert_eq!(t.state_command(), "test -f /tmp/on");
}

#[test]
fn toggle_poll_adopts_reported_state() {
    let mut t = Toggle::new(toggle_config());
    let hint = t.apply_state(true);
    assert_eq!(hint, Some(5));
    assert_eq!(t.view()[0].icon(), "toggle_on");
    let hint = t.apply_state(false);
    assert_eq!(hint, Some(5));
    assert_eq!(t.view()[0].icon(), "toggle_off");
}

#[test]
fn toggle_click_picks_the_flipping_command() {
    let mut t = Toggle::new(toggle_config());
    let id = t.id().to_string();
    let aimed = ClickEvent { name: Some(id.clone()), button: MouseButton::Left };
    assert_eq!(t.click_command(&aimed).as_deref(), Some("touch /tmp/on"));
    t.apply_state(true);
    assert_eq!(t.click_command(&aimed).as_deref(), Some("rm /tmp/on"));
    let stray = ClickEvent { name: Some("someone else".to_string()), button: MouseButton::Left };
    assert!(t.click_command(&stray).is_none());
    let unnamed = ClickEvent { name: None, button: MouseButton::Left };
    assert!(t.click_command(&unnamed).is_none());
}

#[test]
fn toggle_flips_only_on_command_success() {
    let mut t = Toggle::new(toggle_config());
    t.apply_click_result(false);
    assert_eq!(t.view()[0].icon(), "");
    t.apply_click_result(true);
    assert_eq!(t.view()[0].icon(), "toggle_on");
    t.apply_click_result(true);
    assert_eq!(t.view()[0].icon(), "toggle_off");
}

#[test]
fn night_light_defaults_drive_redshift() {
    assert_eq!(NightLightConfig::default_command_state(), "redshift -vx | grep Color");
    assert_eq!(NightLightConfig::default_command_on(), "redshift -PO 4500K");
    assert_eq!(NightLightConfig::default_command_off(), "redshift -x");
    assert_eq!(NightLightConfig::default_icon_on(), "moon");
    assert_eq!(NightLightConfig::default_icon_off(), "sun");
    assert_eq!(NightLightConfig::default_color_temperature(), 4500);
}

#[test]
fn night_light_update_shows_state_icon() {
    let mut n = NightLight::new(night_light_config());
    let hint = n.update();
    assert!(hint.is_none());
    assert_eq!(n.view()[0].icon(), "sun");
}

#[test]
fn night_light_wheel_up_raises_temperature() {
    let mut n = NightLight::new(night_light_config());
    let id = n.id().to_string();
    let e = ClickEvent { name: Some(id), button: MouseButton::WheelUp };
    let cmd = n.click(&e);
    assert_eq!(cmd.as_deref(), Some("redshift -PO 4700K"));
    // The text shows the temperature the click found, not the new one.
    assert_eq!(n.view()[0].text(), "4500");
}

#[test]
fn night_light_wheel_up_clamps_at_25000() {
    let mut n = NightLight::new(NightLightConfig {
        color_temperature: 24900,
        ..night_light_config()
    });
    let id = n.id().to_string();
    let e = ClickEvent { name: Some(id), button: MouseButton::WheelUp };
    let cmd = n.click(&e);
    assert_eq!(cmd.as_deref(), Some("redshift -PO 25000K"));
}

#[test]
fn night_light_wheel_down_clamps_at_1000() {
    let mut n = NightLight::new(NightLightConfig {
        color_temperature: 1100,
        ..night_light_config()
    });
    let id = n.id().to_string();
    let e = ClickEvent { name: Some(id), button: MouseButton::WheelDown };
    let cmd = n.click(&e);
    assert_eq!(cmd.as_deref(), Some("redshift -PO 1000K"));
    let e2 = ClickEvent { name: n.id().to_string().into(), button: MouseButton::WheelDown };
    let cmd2 = n.click(&e2);
    assert_eq!(cmd2.as_deref(), Some("redshift -PO 1000K"));
}

#[test]
fn night_light_left_click_toggles_and_bakes_temperature() {
    let mut n = NightLight::new(NightLightConfig {
        color_temperature: 3000,
        ..night_light_config()
    });
    let id = n.id().to_string();
    let on = n.click(&ClickEvent { name: Some(id.clone()), button: MouseButton::Left });
    assert_eq!(on.as_deref(), Some("redshift -PO 3000K"));
    assert_eq!(n.view()[0].icon(), "moon");
    assert_eq!(n.view()[0].state(), State::Warning);
    assert_eq!(n.view()[0].text(), "3000");
    let off = n.click(&ClickEvent { name: Some(id), button: MouseButton::Left });
    assert_eq!(off.as_deref(), Some("redshift -x"));
    assert_eq!(n.view()[0].icon(), "sun");
    assert_eq!(n.view()[0].state(), State::Idle);
    assert_eq!(n.view()[0].text(), "");
}

#[test]
fn night_light_ignores_stray_clicks_and_other_buttons() {
    let mut n = NightLight::new(night_light_config());
    let stray = n.click(&ClickEvent { name: Some("other".to_string()), button: MouseButton::Left });
    assert!(stray.is_none());
    let unnamed = n.click(&ClickEvent { name: None, button: MouseButton::WheelUp });
    assert!(unnamed.is_none());
    let id = n.id().to_string();
    let right = n.click(&ClickEvent { name: Some(id), button: MouseButton::Right });
    assert!(right.is_none());
    assert_eq!(n.view()[0].text(), "4500");
}
