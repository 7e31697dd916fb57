use gamepad_mouse_control::logging::{
    initialize_enhanced_logging, initialize_simple_logging, LevelFilter,
};

#[test]
fn logger_is_installed_once_per_process() {
    assert_eq!(initialize_simple_logging(Some(LevelFilter::Warn)), Ok(()));
    let second = initialize_simple_logging(None);
    let message = second.unwrap_err();
    assert!(message.starts_with("无法初始化日志系统: "));
    assert!(message.len() > "无法初始化日志系统: ".len());
    let third = initialize_enhanced_logging(Some(LevelFilter::Debug), Ok(()));
    assert!(third.unwrap_err().starts_with("无法初始化日志系统: "));
    assert_eq!(
        initialize_enhanced_logging(None, Err("denied".to_string())),
        Err("无法创建日志文件: denied".to_string())
    );
}
