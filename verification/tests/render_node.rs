use wado_compositor::render_node::first_render_node;

fn names(v: &[&str]) -> Vec<String> {
    v.iter().map(|s| s.to_string()).collect()
}

#[test]
fn the_first_render_node_in_name_order_is_chosen() {
    let n = names(&["card0", "renderD129", "by-path", "renderD128", "card1"]);
    assert_eq!(first_render_node(&n), Some("/dev/dri/renderD128".to_string()));
}

#[test]
fn name_order_is_string_order_not_numeric() {
    let n = names(&["renderD2", "renderD10"]);
    assert_eq!(first_render_node(&n), Some("/dev/dri/renderD10".to_string()));
}

#[test]
fn no_render_node_means_none() {
    assert_eq!(first_render_node(&names(&["card0", "render", "by-path"])), None);
    assert_eq!(first_render_node(&Vec::new()), None);
}
