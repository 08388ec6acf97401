use euclid::{Point2D, Rect, Size2D};
use unit_geometry::{
    LogicalLength, LogicalPoint, LogicalRect, LogicalSize, PhysicalLength, PhysicalPoint,
    PhysicalRect, PhysicalSize, PointLengths, RectLengths, ScaleFactor, SizeLengths,
};

fn close(a: f32, b: f32) -> bool {
    (a - b).abs() <= 1e-4 * a.abs().max(b.abs()).max(1.0)
}

#[test]
fn scale_factor_two_doubles_a_rect_and_back() {
    let factor: ScaleFactor<f32> = ScaleFactor::new(2.0);
    let logical: LogicalRect<f32> = Rect::new(Point2D::new(10.0, 10.0), Size2D::new(100.0, 50.0));

    let physical: PhysicalRect<f32> = logical * factor;
    let expected: PhysicalRect<f32> =
        Rect::new(Point2D::new(20.0, 20.0), Size2D::new(200.0, 100.0));
    assert_eq!(physical, expected);

    let back: LogicalRect<f32> = physical / factor;
    assert_eq!(back, logical);
}

#[test]
fn scale_factor_multiplies_a_length_by_the_ratio() {
    let factor: ScaleFactor<f32> = ScaleFactor::new(1.5);
    let logical: LogicalLength<f32> = LogicalLength::new(7.0);
    let physical: PhysicalLength<f32> = logical * factor;
    assert_eq!(physical.get(), 7.0 * 1.5);
    assert_eq!(physical.get(), 10.5);
}

#[test]
fn scale_factor_divides_a_length_by_the_ratio() {
    let factor: ScaleFactor<f32> = ScaleFactor::new(4.0);
    let physical: PhysicalLength<f32> = PhysicalLength::new(10.0);
    let logical: LogicalLength<f32> = physical / factor;
    assert_eq!(logical.get(), 2.5);
}

#[test]
fn length_round_trip_is_close_for_awkward_ratios() {
    let ratios = [0.1_f32, 0.75, 1.0, 1.25, 1.3333334, 2.0, 3.0, -2.5, 1e-3, 1e3];
    let values = [0.0_f32, 1.0, -1.0, 0.3, 17.0, 1234.5678, -99999.0];
    for ratio in ratios {
        let factor: ScaleFactor<f32> = ScaleFactor::new(ratio);
        for value in values {
            let logical: LogicalLength<f32> = LogicalLength::new(value);
            let physical: PhysicalLength<f32> = logical * factor;
            assert_eq!(physical.get(), value * ratio);
            let back: LogicalLength<f32> = physical / factor;
            assert!(close(back.get(), value));
        }
    }
}

#[test]
fn scaled_rect_splits_into_physical_lengths() {
    let factor: ScaleFactor<f32> = ScaleFactor::new(2.0);
    let logical: LogicalRect<f32> = Rect::new(Point2D::new(10.0, 10.0), Size2D::new(100.0, 50.0));
    let physical: PhysicalRect<f32> = logical * factor;

    let x: PhysicalLength<f32> = physical.origin.x_length();
    let y: PhysicalLength<f32> = physical.origin.y_length();
    let width: PhysicalLength<f32> = physical.width_length();
    let height: PhysicalLength<f32> = physical.height_length();
    assert_eq!([x.get(), y.get(), width.get(), height.get()], [20.0, 20.0, 200.0, 100.0]);

    assert_eq!(width, logical.width_length() * factor);
    assert_eq!(height, logical.height_length() * factor);
    assert_eq!(x, logical.origin.x_length() * factor);
    assert_eq!(y, logical.origin.y_length() * factor);
}

#[test]
fn scale_factor_converts_points_and_sizes() {
    let factor: ScaleFactor<f32> = ScaleFactor::new(3.0);
    let point: LogicalPoint<f32> = Point2D::new(1.0, -2.0);
    let size: LogicalSize<f32> = Size2D::new(0.5, 4.0);

    let physical_point: PhysicalPoint<f32> = point * factor;
    let physical_size: PhysicalSize<f32> = size * factor;
    assert_eq!(physical_point, Point2D::new(3.0, -6.0));
    assert_eq!(physical_size, Size2D::new(1.5, 12.0));
    assert_eq!(physical_size.width_length(), size.width_length() * factor);

    let back_point: LogicalPoint<f32> = physical_point / factor;
    let back_size: LogicalSize<f32> = physical_size / factor;
    assert_eq!(back_point, point);
    assert_eq!(back_size, size);
}

#[test]
fn scale_factor_one_changes_only_the_unit() {
    let factor: ScaleFactor<f32> = ScaleFactor::new(1.0);
    let logical: LogicalRect<f32> = Rect::new(Point2D::new(0.1, 0.2), Size2D::new(0.3, 0.4));
    let physical: PhysicalRect<f32> = logical * factor;
    assert_eq!(physical.to_untyped(), logical.to_untyped());
}
