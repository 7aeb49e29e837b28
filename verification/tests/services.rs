use druid_game::input::InputManager;
use druid_game::input::WebInputManager;
use druid_game::io::LocalAssetLoader;
use druid_game::service::ServiceContainer;

type TestContainer = ServiceContainer<LocalAssetLoader, String, WebInputManager, u32>;

#[test]
fn test_every_service_registers_once() {
    let mut services: TestContainer = ServiceContainer::new();

    assert!(services.asset_loader_mut().is_err());
    assert!(services.render_context_mut().is_err());
    assert!(services.input_manager_mut().is_err());
    assert!(services.vfc_mut().is_err());

    assert!(services.register_asset_loader(LocalAssetLoader::create()).is_ok());
    assert!(services.register_render_context("canvas".to_string()).is_ok());
    assert!(services.register_input_manager(WebInputManager::create()).is_ok());
    assert!(services.register_vfc(7).is_ok());

    assert!(services.asset_loader_mut().is_ok());
    assert!(services.render_context_mut().is_ok());
    assert!(services.input_manager_mut().is_ok());
    assert!(services.vfc_mut().is_ok());
}

#[test]
fn test_registering_a_service_twice_fails() {
    let mut services: TestContainer = ServiceContainer::new();

    assert!(services.register_vfc(7).is_ok());
    assert!(services.register_vfc(8).is_err());

    // The first registration is kept.
    assert_eq!(Some(&mut 7), services.vfc_mut().ok());
}

#[test]
fn test_a_registered_service_can_be_mutated_in_place() {
    let mut services: TestContainer = ServiceContainer::new();
    services.register_vfc(7).expect("an empty slot accepts a service");

    let vfc = services.vfc_mut().expect("a registered service is returned");
    *vfc = 9;

    assert_eq!(Some(&mut 9), services.vfc_mut().ok());
}

#[test]
fn test_default_container_is_empty() {
    let mut services: TestContainer = Default::default();
    assert!(services.asset_loader_mut().is_err());
    assert!(services.render_context_mut().is_err());
    assert!(services.input_manager_mut().is_err());
    assert!(services.vfc_mut().is_err());
}

#[test]
fn test_input_manager_reports_a_requested_close() {
    let mut input_manager = WebInputManager::create();
    assert!(!input_manager.is_requesting_close());

    input_manager.request_close();
    assert!(input_manager.is_requesting_close());
    assert!(input_manager.is_requesting_close());
}
