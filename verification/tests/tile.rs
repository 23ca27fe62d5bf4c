use lwgeom::binary64::Binary64;
use lwgeom::error::LWGeomError;
use lwgeom::gbox::GBox;
use lwgeom::lwgeom::LWGeom;
use lwgeom::lwpoly::LWPoly;
use lwgeom::tile::{tiles_per_axis, Tile, TileEdges, WEB_MERCATOR_SRID};

fn b(v: f64) -> Binary64 {
    Binary64::from_bits(v.to_bits())
}

fn f(v: Binary64) -> f64 {
    f64::from_bits(v.to_bits())
}

fn refused(parameter: &str) -> LWGeomError {
    LWGeomError::InvalidParameterError("ST_TileEnvelope".to_string(), parameter.to_string())
}

fn bounds(xmin: f64, ymin: f64, xmax: f64, ymax: f64, srid: i32) -> LWGeom {
    LWGeom::new(srid, Some(GBox::new(b(xmin), b(ymin), b(xmax), b(ymax))))
}

fn edges(tile: &Tile) -> TileEdges {
    let bbox = tile.bounds();
    let (xmin, ymin, xmax, ymax) = (f(bbox.xmin()), f(bbox.ymin()), f(bbox.xmax()), f(bbox.ymax()));
    let world = tile.world_tile_size() as f64;
    let margin = f(tile.margin());
    let (x, y) = (tile.x() as f64, tile.y() as f64);
    let size_x = (xmax - xmin) / world;
    let size_y = (ymax - ymin) / world;
    TileEdges {
        margin_span: b(1.0 + margin * 2.0),
        x1: b(xmin + size_x * (x - margin)),
        x2: b(xmin + size_x * (x + 1.0 + margin)),
        y1: b(ymax - size_y * (y + 1.0 + margin)),
        y2: b(ymax - size_y * (y - margin)),
    }
}

fn envelope(zoom: i32, x: i32, y: i32, bounds: Option<&LWGeom>, margin: Option<f64>) -> Result<LWPoly, LWGeomError> {
    let tile = LWGeom::tile_envelope(zoom, x, y, bounds, margin.map(b))?;
    let edges = edges(&tile);
    Ok(tile.finish(edges))
}

fn corners(poly: &LWPoly) -> (f64, f64, f64, f64) {
    assert_eq!(poly.num_rings(), 1);
    let ring = poly.ring(0);
    assert_eq!(ring.len(), 5);
    assert_eq!(ring[0], ring[4]);
    assert_eq!(ring[1].x, ring[0].x);
    assert_eq!(ring[1].y, ring[2].y);
    assert_eq!(ring[3].x, ring[2].x);
    assert_eq!(ring[3].y, ring[0].y);
    (f(ring[0].x), f(ring[0].y), f(ring[2].x), f(ring[2].y))
}

#[test]
fn tile_zero_covers_the_web_mercator_world() {
    let poly = envelope(0, 0, 0, None, None).unwrap();
    assert_eq!(poly.get_srid(), 3857);
    assert_eq!(
        corners(&poly),
        (-20037508.342789, -20037508.342789, 20037508.342789, 20037508.342789)
    );
}

#[test]
fn x_outside_the_grid_is_refused() {
    assert_eq!(envelope(0, 1, 0, None, None).err(), Some(refused("x")));
    assert_eq!(envelope(3, 8, 0, None, None).err(), Some(refused("x")));
    assert_eq!(envelope(3, -1, 0, None, None).err(), Some(refused("x")));
    assert!(envelope(3, 7, 0, None, None).is_ok());
}

#[test]
fn margin_below_minus_half_is_refused() {
    assert_eq!(envelope(5, 0, 0, None, Some(-0.6)).err(), Some(refused("margin")));
    assert_eq!(envelope(5, 0, 0, None, Some(f64::NEG_INFINITY)).err(), Some(refused("margin")));
    assert_eq!(envelope(5, 0, 0, None, Some(-0.5000000000000001)).err(), Some(refused("margin")));
    assert!(envelope(5, 0, 0, None, Some(-0.5)).is_ok());
    assert!(envelope(5, 0, 0, None, Some(f64::NAN)).is_ok());
}

#[test]
fn y_outside_the_grid_is_refused() {
    assert_eq!(envelope(0, 0, 1, None, None).err(), Some(refused("y")));
    assert_eq!(envelope(4, 15, 16, None, None).err(), Some(refused("y")));
    assert_eq!(envelope(4, 15, -3, None, None).err(), Some(refused("y")));
    assert!(envelope(4, 15, 15, None, None).is_ok());
}

#[test]
fn zoom_outside_its_range_is_refused() {
    assert_eq!(envelope(-1, 0, 0, None, None).err(), Some(refused("zoom")));
    assert_eq!(envelope(32, 0, 0, None, None).err(), Some(refused("zoom")));
    assert_eq!(envelope(i32::MIN, 0, 0, None, None).err(), Some(refused("zoom")));
    assert_eq!(envelope(i32::MAX, 0, 0, None, None).err(), Some(refused("zoom")));
    assert!(envelope(31, 0, 0, None, None).is_ok());
}

#[test]
fn bounds_without_extent_are_refused() {
    let flat = bounds(0.0, 5.0, 10.0, 5.0, 4326);
    assert_eq!(envelope(0, 0, 0, Some(&flat), None).err(), Some(refused("bounds")));
    let thin = bounds(1.0, 0.0, 1.0, 5.0, 4326);
    assert_eq!(envelope(0, 0, 0, Some(&thin), None).err(), Some(refused("bounds")));
    let inverted = bounds(10.0, 0.0, 0.0, 5.0, 4326);
    assert_eq!(envelope(0, 0, 0, Some(&inverted), None).err(), Some(refused("bounds")));
}

#[test]
fn the_first_failing_check_names_the_error() {
    let flat = bounds(0.0, 5.0, 10.0, 5.0, 4326);
    assert_eq!(envelope(40, -1, -1, Some(&flat), Some(-1.0)).err(), Some(refused("margin")));
    assert_eq!(envelope(40, -1, -1, Some(&flat), None).err(), Some(refused("bounds")));
    assert_eq!(envelope(40, -1, -1, None, None).err(), Some(refused("zoom")));
    assert_eq!(envelope(2, -1, -1, None, None).err(), Some(refused("x")));
    assert_eq!(envelope(2, 0, -1, None, None).err(), Some(refused("y")));
}

#[test]
fn the_highest_zoom_has_two_to_the_31_columns() {
    let tile = LWGeom::tile_envelope(31, i32::MAX, i32::MAX, None, None).unwrap();
    assert_eq!(tile.world_tile_size(), 2147483648);
    assert_eq!(tile.zoom(), 31);
    assert_eq!(tile.x(), 2147483647);
    assert_eq!(tile.y(), 2147483647);
    assert_eq!(tiles_per_axis(0), 1);
    assert_eq!(tiles_per_axis(5), 32);
    assert_eq!(tiles_per_axis(31), 2147483648);
}

#[test]
fn a_checked_tile_keeps_what_was_asked() {
    let area = bounds(-10.0, -20.0, 30.0, 40.0, 4326);
    let tile = LWGeom::tile_envelope(3, 5, 2, Some(&area), Some(b(0.25))).unwrap();
    assert_eq!(tile.zoom(), 3);
    assert_eq!(tile.world_tile_size(), 8);
    assert_eq!(tile.x(), 5);
    assert_eq!(tile.y(), 2);
    assert_eq!(tile.margin(), b(0.25));
    assert_eq!(tile.bounds(), GBox::new(b(-10.0), b(-20.0), b(30.0), b(40.0)));
    assert_eq!(tile.srid(), 4326);
}

#[test]
fn defaults_are_the_web_mercator_world_and_no_margin() {
    let tile = LWGeom::tile_envelope(1, 1, 0, None, None).unwrap();
    assert_eq!(tile.margin(), Binary64::zero());
    assert_eq!(tile.bounds(), GBox::web_mercator());
    assert_eq!(tile.srid(), WEB_MERCATOR_SRID);
}

#[test]
fn bounds_without_srid_give_web_mercator() {
    let area = bounds(0.0, 0.0, 8.0, 8.0, 0);
    let poly = envelope(0, 0, 0, Some(&area), None).unwrap();
    assert_eq!(poly.get_srid(), 3857);
    let tagged = bounds(0.0, 0.0, 8.0, 8.0, 2154);
    let poly = envelope(0, 0, 0, Some(&tagged), None).unwrap();
    assert_eq!(poly.get_srid(), 2154);
}

#[test]
fn tiles_divide_the_bounds_with_row_zero_on_top() {
    let area = bounds(0.0, 0.0, 8.0, 16.0, 4326);
    let poly = envelope(2, 1, 0, Some(&area), None).unwrap();
    assert_eq!(corners(&poly), (2.0, 12.0, 4.0, 16.0));
    let poly = envelope(2, 3, 3, Some(&area), None).unwrap();
    assert_eq!(corners(&poly), (6.0, 0.0, 8.0, 4.0));
    let poly = envelope(1, 0, 1, Some(&area), None).unwrap();
    assert_eq!(corners(&poly), (0.0, 0.0, 4.0, 8.0));
}

#[test]
fn a_margin_widens_the_tile_and_is_clamped_on_y_only() {
    let area = bounds(0.0, 0.0, 8.0, 16.0, 4326);
    let poly = envelope(2, 1, 1, Some(&area), Some(0.5)).unwrap();
    assert_eq!(corners(&poly), (1.0, 6.0, 5.0, 14.0));
    let poly = envelope(2, 0, 0, Some(&area), Some(0.5)).unwrap();
    assert_eq!(corners(&poly), (-1.0, 10.0, 3.0, 16.0));
    let poly = envelope(2, 3, 3, Some(&area), Some(0.5)).unwrap();
    assert_eq!(corners(&poly), (5.0, 0.0, 9.0, 6.0));
}

#[test]
fn a_negative_margin_narrows_the_tile() {
    let area = bounds(0.0, 0.0, 8.0, 16.0, 4326);
    let poly = envelope(2, 1, 1, Some(&area), Some(-0.25)).unwrap();
    assert_eq!(corners(&poly), (2.5, 9.0, 3.5, 11.0));
    let poly = envelope(2, 1, 1, Some(&area), Some(-0.5)).unwrap();
    assert_eq!(corners(&poly), (3.0, 10.0, 3.0, 10.0));
}

#[test]
fn a_margin_wider_than_the_grid_spans_the_bounds() {
    let area = bounds(0.0, 0.0, 8.0, 16.0, 4326);
    let poly = envelope(1, 0, 0, Some(&area), Some(1.0)).unwrap();
    assert_eq!(corners(&poly), (0.0, 0.0, 8.0, 16.0));
    let poly = envelope(1, 1, 1, Some(&area), Some(0.75)).unwrap();
    assert_eq!(corners(&poly), (0.0, 0.0, 8.0, 14.0));
    let poly = envelope(1, 1, 1, Some(&area), Some(0.5)).unwrap();
    assert_eq!(corners(&poly), (2.0, 0.0, 10.0, 12.0));
}

#[test]
fn finish_settles_the_corners_from_the_edges_it_is_given() {
    let area = bounds(0.0, 0.0, 8.0, 16.0, 4326);
    let tile = LWGeom::tile_envelope(2, 1, 1, Some(&area), None).unwrap();
    let given = TileEdges { margin_span: b(4.0), x1: b(-3.0), x2: b(11.0), y1: b(-5.0), y2: b(20.0) };
    assert_eq!(corners(&tile.finish(given)), (-3.0, 0.0, 11.0, 16.0));
    let given = TileEdges { margin_span: b(4.5), x1: b(-3.0), x2: b(11.0), y1: b(1.0), y2: b(2.0) };
    assert_eq!(corners(&tile.finish(given)), (0.0, 1.0, 8.0, 2.0));
    let given = TileEdges { margin_span: b(f64::NAN), x1: b(1.0), x2: b(2.0), y1: b(0.0), y2: b(16.0) };
    assert_eq!(corners(&tile.finish(given)), (1.0, 0.0, 2.0, 16.0));
}
