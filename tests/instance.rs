use triangle_renderer::instance::check_validation_layer_support;

fn names(v: &[&str]) -> Vec<String> {
    v.iter().map(|s| s.to_string()).collect()
}

#[test]
fn all_required_layers_available() {
    let available = names(&["VK_LAYER_KHRONOS_validation", "VK_LAYER_LUNARG_standard_validation"]);
    assert!(check_validation_layer_support(&names(&["VK_LAYER_LUNARG_standard_validation"]), &available));
    assert!(check_validation_layer_support(&names(&[]), &available));
    assert!(check_validation_layer_support(&names(&[]), &names(&[])));
}

#[test]
fn missing_layer_is_detected() {
    let available = names(&["VK_LAYER_KHRONOS_validation"]);
    assert!(!check_validation_layer_support(&names(&["VK_LAYER_LUNARG_standard_validation"]), &available));
    assert!(!check_validation_layer_support(
        &names(&["VK_LAYER_KHRONOS_validation", "VK_LAYER_LUNARG_monitor"]),
        &available
    ));
    assert!(!check_validation_layer_support(&names(&["VK_LAYER_KHRONOS_validation"]), &names(&[])));
}
