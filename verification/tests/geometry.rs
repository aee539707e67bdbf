use console_backend::geometry::{buffer_extent, reported_size, visible_size};
use console_backend::{
    ConsoleError, Coord, GeometryFault, OsError, ScreenBufferInfo, ScreenSize, SmallRect,
};

fn rect(left: i16, top: i16, right: i16, bottom: i16) -> SmallRect {
    SmallRect { left, top, right, bottom }
}

fn size(rows: usize, cols: usize) -> ScreenSize {
    ScreenSize { rows, cols, xpixel: 0, ypixel: 0 }
}

#[test]
fn window_of_100_by_30_reports_99_columns_and_30_rows() {
    assert_eq!(visible_size(rect(0, 0, 99, 29)), Ok(size(30, 99)));
}

#[test]
fn window_position_does_not_matter() {
    assert_eq!(visible_size(rect(10, 2970, 89, 2999)), Ok(size(30, 79)));
    assert_eq!(visible_size(rect(-5, -5, 4, 4)), Ok(size(10, 9)));
}

#[test]
fn window_of_one_cell_reports_no_columns() {
    assert_eq!(visible_size(rect(7, 7, 7, 7)), Ok(size(1, 0)));
}

#[test]
fn window_without_rows_is_reported() {
    assert_eq!(visible_size(rect(0, 5, 10, 4)), Ok(size(0, 10)));
}

#[test]
fn window_turned_inside_out_is_out_of_range() {
    assert_eq!(visible_size(rect(5, 0, 4, 29)), Err(GeometryFault::OutOfRange));
    assert_eq!(visible_size(rect(0, 5, 10, 3)), Err(GeometryFault::OutOfRange));
    assert_eq!(visible_size(rect(i16::MAX, 0, i16::MIN, 0)), Err(GeometryFault::OutOfRange));
}

#[test]
fn widest_window_does_not_overflow() {
    assert_eq!(
        visible_size(rect(i16::MIN, i16::MIN, i16::MAX, i16::MAX)),
        Ok(size(65536, 65535))
    );
}

#[test]
fn pixel_sizes_are_reported_as_zero() {
    let reported = visible_size(rect(0, 0, 79, 24)).unwrap();
    assert_eq!(reported.xpixel, 0);
    assert_eq!(reported.ypixel, 0);
}

#[test]
fn resize_asks_for_one_column_more() {
    assert_eq!(buffer_extent(size(40, 100)), Ok(Coord { x: 101, y: 40 }));
    assert_eq!(buffer_extent(size(0, 0)), Ok(Coord { x: 1, y: 0 }));
}

#[test]
fn resize_ignores_pixel_sizes() {
    let with_pixels = ScreenSize { rows: 24, cols: 80, xpixel: 640, ypixel: 384 };
    assert_eq!(buffer_extent(with_pixels), Ok(Coord { x: 81, y: 24 }));
}

#[test]
fn resize_accepts_the_largest_extent_the_console_counts() {
    assert_eq!(buffer_extent(size(32767, 32766)), Ok(Coord { x: 32767, y: 32767 }));
}

#[test]
fn resize_refuses_what_the_console_cannot_count() {
    assert_eq!(buffer_extent(size(40, 32767)), Err(GeometryFault::OutOfRange));
    assert_eq!(buffer_extent(size(32768, 100)), Err(GeometryFault::OutOfRange));
    assert_eq!(buffer_extent(size(40, usize::MAX)), Err(GeometryFault::OutOfRange));
    assert_eq!(buffer_extent(size(usize::MAX, 0)), Err(GeometryFault::OutOfRange));
}

#[test]
fn size_set_and_read_back_is_the_same() {
    for (rows, cols) in [(40usize, 100usize), (1, 1), (24, 80), (0, 0), (32767, 32766)] {
        let extent = buffer_extent(size(rows, cols)).unwrap();
        let window = rect(0, 0, extent.x - 1, extent.y - 1);
        assert_eq!(visible_size(window), Ok(size(rows, cols)));
    }
}

fn answer(window: SmallRect) -> ScreenBufferInfo {
    ScreenBufferInfo {
        size: Coord { x: 120, y: 9000 },
        cursor_position: Coord { x: 5, y: 6 },
        attributes: 0x1F,
        window,
        maximum_window_size: Coord { x: 200, y: 60 },
    }
}

#[test]
fn answered_query_reports_the_window_and_nothing_else() {
    assert_eq!(reported_size(Ok(answer(rect(0, 0, 99, 29)))), Ok(size(30, 99)));
    assert_eq!(reported_size(Ok(answer(rect(0, 8970, 119, 8999)))), Ok(size(30, 119)));
}

#[test]
fn refused_query_is_a_geometry_error_with_the_code() {
    assert_eq!(
        reported_size(Err(OsError { code: 6 })),
        Err(ConsoleError::Geometry(GeometryFault::Os(OsError { code: 6 })))
    );
}

#[test]
fn answered_query_with_an_inside_out_window_is_out_of_range() {
    assert_eq!(
        reported_size(Ok(answer(rect(10, 0, 5, 29)))),
        Err(ConsoleError::Geometry(GeometryFault::OutOfRange))
    );
}
