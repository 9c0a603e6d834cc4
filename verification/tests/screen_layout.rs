use flowcontrol::screen_layout::{
    last_pixel, neighbor_side_to_edge, opposite_edge, Edge, NeighborSide, ScreenDimensions, ScreenLayoutImpl,
};

#[test]
fn test_neighbor_side_to_edge_all_variants() {
    assert_eq!(neighbor_side_to_edge(NeighborSide::Left), Edge::Left);
    assert_eq!(neighbor_side_to_edge(NeighborSide::Right), Edge::Right);
    assert_eq!(neighbor_side_to_edge(NeighborSide::Top), Edge::Top);
    assert_eq!(neighbor_side_to_edge(NeighborSide::Bottom), Edge::Bottom);
}

#[test]
fn test_opposite_edge_all_variants() {
    assert_eq!(opposite_edge(NeighborSide::Left), Edge::Right);
    assert_eq!(opposite_edge(NeighborSide::Right), Edge::Left);
    assert_eq!(opposite_edge(NeighborSide::Top), Edge::Bottom);
    assert_eq!(opposite_edge(NeighborSide::Bottom), Edge::Top);
}

#[test]
fn layout_watches_edge_after_configure() {
    let mut layout = ScreenLayoutImpl::new();
    assert_eq!(layout.watched_edge(), None);
    layout.configure(
        NeighborSide::Right,
        ScreenDimensions { width: 1920, height: 1080 },
        ScreenDimensions { width: 2560, height: 1440 },
    );
    assert_eq!(layout.watched_edge(), Some(Edge::Right));
    assert_eq!(layout.local, ScreenDimensions { width: 1920, height: 1080 });
    assert_eq!(layout.remote, ScreenDimensions { width: 2560, height: 1440 });
}

#[test]
fn last_pixel_is_one_less_and_saturates() {
    assert_eq!(
        last_pixel(ScreenDimensions { width: 1920, height: 1080 }),
        ScreenDimensions { width: 1919, height: 1079 }
    );
    assert_eq!(
        last_pixel(ScreenDimensions { width: 0, height: 1 }),
        ScreenDimensions { width: 0, height: 0 }
    );
}

#[test]
fn opposite_edge_never_watched_edge() {
    for side in [NeighborSide::Left, NeighborSide::Right, NeighborSide::Top, NeighborSide::Bottom] {
        assert_ne!(opposite_edge(side), neighbor_side_to_edge(side));
    }
}
