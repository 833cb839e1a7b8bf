use gravity_sim::integration::GuiConfig;

#[test]
fn default_config_refuses_srgb_targets() {
    let config = GuiConfig::default();
    assert!(!config.allow_srgb_render_target);
    assert!(config.validate(false));
    assert!(!config.validate(true));
}

#[test]
fn permissive_config_accepts_every_target() {
    let config = GuiConfig { allow_srgb_render_target: true };
    assert!(config.validate(false));
    assert!(config.validate(true));
}
