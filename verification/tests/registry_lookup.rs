use push_relay::platform::PlatformFactory;
use push_relay::registry::PlatformRegistry;
use push_relay::wxwork::WxWorkPlatformFactory;

#[test]
fn test_platform_registry() {
    let registry: PlatformRegistry<WxWorkPlatformFactory> = PlatformRegistry::new();
    assert!(registry.list_platforms().is_empty());
}

#[test]
fn test_register_and_get() {
    let mut registry = PlatformRegistry::new();
    registry.register(WxWorkPlatformFactory);
    let factory = registry.get_factory("wxwork");
    assert!(factory.is_some());
    assert_eq!(factory.unwrap().name(), "wxwork");
    assert!(registry.get_factory("unknown").is_none());
}

#[test]
fn test_register_again_still_found() {
    let mut registry = PlatformRegistry::new();
    registry.register(WxWorkPlatformFactory);
    registry.register(WxWorkPlatformFactory);
    assert!(registry.get_factory("wxwork").is_some());
    assert_eq!(registry.list_platforms(), vec!["wxwork".to_string()]);
}

#[test]
fn test_list_platforms_names() {
    let mut registry = PlatformRegistry::new();
    registry.register(WxWorkPlatformFactory);
    let names = registry.list_platforms();
    assert!(names.iter().any(|n| n == "wxwork"));
}
