use mandala::document::add_circle_rings;
use mandala::document::create_document;
use mandala::modes::resolve;
use mandala::modes::str_eq;
use mandala::modes::CenterMode;
use mandala::page::PageGeometry;
use mandala::plan::generate;
use mandala::plan::ring_radii;
use mandala::plan::spoke_angles;
use polygonical::point::Point;

fn open_geometry() -> PageGeometry {
    PageGeometry { width: 200, height: 220, top: 0, bottom: 0, left: 0, right: 0 }
}

fn bordered_geometry() -> PageGeometry {
    PageGeometry { width: 300, height: 400, top: 10, bottom: 10, left: 10, right: 10 }
}

#[test]
fn str_eq_by_value() {
    assert!(str_eq("edge", "edge"));
    assert!(!str_eq("edge", "corner"));
    assert!(!str_eq("edge", "edg"));
    assert!(str_eq("", ""));
}

#[test]
fn parse_known_tokens() {
    assert_eq!(CenterMode::parse("center"), CenterMode::Center);
    assert_eq!(CenterMode::parse("edge"), CenterMode::Edge);
    assert_eq!(CenterMode::parse("corner"), CenterMode::Corner);
}

#[test]
fn parse_unrecognized_token_falls_back_to_center() {
    assert_eq!(CenterMode::parse("bogus"), CenterMode::Center);
    assert_eq!(CenterMode::parse(""), CenterMode::Center);
    assert_eq!(CenterMode::parse("Edge"), CenterMode::Center);
}

#[test]
fn geometry_well_formedness() {
    assert!(open_geometry().is_wf());
    assert!(bordered_geometry().is_wf());
    let bad = PageGeometry { width: 10, height: 10, top: 0, bottom: 0, left: 8, right: 8 };
    assert!(!bad.is_wf());
    let negative = PageGeometry { width: 10, height: 10, top: -1, bottom: 0, left: 0, right: 0 };
    assert!(!negative.is_wf());
}

#[test]
fn resolve_center_mode() {
    let g = open_geometry();
    let r = resolve(CenterMode::Center, &g);
    assert_eq!(r.center.x, 100);
    assert_eq!(r.center.y, 110);
    assert_eq!(r.start_deg, 0);
    assert_eq!(r.end_deg, 360);
    assert_eq!(r.radius, 100);
    assert!(r.full_circle);
}

#[test]
fn resolve_edge_mode() {
    let g = bordered_geometry();
    let r = resolve(CenterMode::Edge, &g);
    assert_eq!(r.center.x, 10);
    assert_eq!(r.center.y, 200);
    assert_eq!(r.start_deg, -90);
    assert_eq!(r.end_deg, 90);
    assert_eq!(r.radius, 190);
    assert!(!r.full_circle);
}

#[test]
fn resolve_corner_mode() {
    let g = bordered_geometry();
    let r = resolve(CenterMode::Corner, &g);
    assert_eq!(r.center.x, 10);
    assert_eq!(r.center.y, 10);
    assert_eq!(r.start_deg, 0);
    assert_eq!(r.end_deg, 90);
    assert_eq!(r.radius, 280);
    assert!(!r.full_circle);
}

#[test]
fn ring_radii_of_the_example() {
    let v = ring_radii(2, 100);
    assert_eq!(v, vec![0, 50, 100]);
}

#[test]
fn ring_radii_round_to_nearest_pixel() {
    let v = ring_radii(3, 100);
    assert_eq!(v, vec![0, 33, 67, 100]);
}

#[test]
fn ring_radii_shape() {
    let v = ring_radii(7, 97);
    assert_eq!(v.len(), 8);
    assert_eq!(v[0], 0);
    assert_eq!(v[7], 97);
    for w in v.windows(2) {
        assert!(w[0] <= w[1]);
    }
}

#[test]
fn ring_count_zero_draws_one_ring_at_radius_zero() {
    let v = ring_radii(0, 100);
    assert_eq!(v, vec![0]);
}

#[test]
fn spoke_angles_of_the_example() {
    let s = spoke_angles(4, 0, 360);
    assert_eq!(s.len(), 5);
    let degrees: Vec<f64> = s.iter().map(|a| a.num as f64 / a.den as f64).collect();
    assert_eq!(degrees, vec![0.0, 90.0, 180.0, 270.0, 360.0]);
}

#[test]
fn spoke_angles_evenly_spaced_over_half_circle() {
    let s = spoke_angles(3, -90, 90);
    assert_eq!(s.len(), 4);
    for a in &s {
        assert_eq!(a.den, 3);
    }
    assert_eq!(s[0].num, -270);
    assert_eq!(s[1].num - s[0].num, 180);
    assert_eq!(s[2].num - s[1].num, 180);
    assert_eq!(s[3].num - s[2].num, 180);
    assert_eq!(s[3].num, 270);
}

#[test]
fn spoke_count_zero_draws_one_spoke_at_the_start_angle() {
    let s = spoke_angles(0, -90, 90);
    assert_eq!(s.len(), 1);
    assert_eq!(s[0].num, -90);
    assert_eq!(s[0].den, 1);
}

#[test]
fn generate_center_example() {
    let g = open_geometry();
    let p = generate(&g, 2, 4, "center");
    assert_eq!(p.radii, vec![0, 50, 100]);
    assert_eq!(p.spokes.len(), 5);
    let degrees: Vec<f64> = p.spokes.iter().map(|a| a.num as f64 / a.den as f64).collect();
    assert_eq!(degrees, vec![0.0, 90.0, 180.0, 270.0, 360.0]);
    assert!(p.resolution.full_circle);
    assert_eq!(p.resolution.center.x, 100);
    assert_eq!(p.resolution.center.y, 110);
}

#[test]
fn generate_bogus_token_is_identical_to_center() {
    let g = bordered_geometry();
    let a = generate(&g, 5, 10, "bogus");
    let b = generate(&g, 5, 10, "center");
    assert_eq!(a.resolution, b.resolution);
    assert_eq!(a.spokes, b.spokes);
    assert_eq!(a.radii, b.radii);
}

#[test]
fn document_carries_the_presentation_defaults() {
    let page = esvg::page::Page::build_page("A4", 96, 0.5).unwrap();
    let doc = create_document(&page);
    assert_eq!(doc.name, "svg");
    assert_eq!(doc.get("stroke"), Some("black".to_string()));
    assert_eq!(doc.get("fill"), Some("black".to_string()));
    assert_eq!(doc.get("stroke-width"), Some("1mm".to_string()));
    assert_eq!(doc.get("stroke-linecap"), Some("square".to_string()));
    assert_eq!(doc.get("stroke-miterlimit"), Some("10".to_string()));
    assert_eq!(doc.get("font-family"), Some("Dialog".to_string()));
    assert_eq!(doc.get("font-size"), Some("12".to_string()));
    assert!(doc.get("width").is_some());
    assert!(doc.get("height").is_some());
    assert!(doc.get("viewBox").is_some());
}

#[test]
fn document_holds_one_generic_defs_child() {
    let page = esvg::page::Page::build_page("A4", 96, 0.5).unwrap();
    let doc = create_document(&page);
    assert_eq!(doc.children.len(), 1);
    match &doc.children[0] {
        esvg::Node::Element(defs) => {
            assert_eq!(defs.name, "defs");
            assert_eq!(defs.get("id"), Some("genericDefs".to_string()));
            assert!(defs.children.is_empty());
        }
        other => panic!("expected a defs element, found {:?}", other),
    }
}

#[test]
fn circle_rings_are_appended_in_order() {
    let mut el = esvg::Element::new("g");
    let radii = vec![0, 50, 100];
    add_circle_rings(&mut el, 7, 9, &radii);
    assert_eq!(el.children.len(), 3);
    let expected_r = ["0", "50", "100"];
    for (child, want_r) in el.children.iter().zip(expected_r.iter()) {
        match child {
            esvg::Node::Element(c) => {
                assert_eq!(c.name, "circle");
                assert_eq!(c.get("cx"), Some("7".to_string()));
                assert_eq!(c.get("cy"), Some("9".to_string()));
                assert_eq!(c.get("r"), Some(want_r.to_string()));
                assert_eq!(c.get("fill"), Some("none".to_string()));
            }
            other => panic!("expected a circle element, found {:?}", other),
        }
    }
}

#[test]
fn rotation_and_translation_place_spoke_endpoints() {
    let cases = [0.0_f64, 37.0, 90.0, 180.0, 270.0, 360.0];
    let center = Point::new(30, 40);
    for deg in cases {
        let theta = deg.to_radians();
        let p = Point::new(100, 0).rotate(theta).translate(&center);
        assert!((p.x - (30.0 + 100.0 * theta.cos())).abs() < 1e-9);
        assert!((p.y - (40.0 + 100.0 * theta.sin())).abs() < 1e-9);
    }
}
