use tamarindo_engine::config::{ApplicationConfig, ApplicationConfigNewError, WindowConfig};

fn window(width: u32, height: u32) -> WindowConfig {
    WindowConfig { name: String::from("demo"), width, height }
}

#[test]
fn config_accepts_usable_window() {
    let config = ApplicationConfig::new(window(800, 600), vec![0u32; 5], vec![0u16]).unwrap();
    assert_eq!(config.main_window_config.name, "demo");
    assert_eq!(config.main_window_config.width, 800);
    assert_eq!(config.main_window_config.height, 600);
    assert_eq!(config.vertex_words.len(), 5);
    assert_eq!(config.index_data, vec![0u16]);
}

#[test]
fn config_rejects_zero_width() {
    let result = ApplicationConfig::new(window(0, 600), Vec::new(), Vec::new());
    assert!(matches!(result, Err(ApplicationConfigNewError::InvalidConfig)));
}

#[test]
fn config_rejects_zero_height() {
    let result = ApplicationConfig::new(window(800, 0), Vec::new(), Vec::new());
    assert!(matches!(result, Err(ApplicationConfigNewError::InvalidConfig)));
}
