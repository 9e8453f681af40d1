//! Pipeline tests: column resolution, color strategies, axis planning,
//! geometry, and the end-to-end plan over a parsed CSV table.

use colorgrad::{Gradient, GradientBuilder, LinearGradient};
use plotters::style::{Color, Palette, Palette99};
use plotxy::axis::{AxisMax, AxisPlan};
use plotxy::color::{resolve_colors, ColorPlan};
use plotxy::errors::{AxisKind, ColumnRole, DataFault, PlotError};
use plotxy::geometry::{build_primitives, PlotShape, Primitive};
use plotxy::ingest::load_table;
use plotxy::table::{resolve_numeric, resolve_x, synthetic_series, ColumnData, Table};
use plotxy::{plan_plot, resolve_delimiter, shape_from_name, PlotOptions, PlotPlan};

fn bits(v: f64) -> u64 {
    v.to_bits()
}

fn num_col(vals: &[Option<f64>]) -> ColumnData {
    ColumnData::Numeric(vals.iter().map(|o| o.map(f64::to_bits)).collect())
}

fn text_col(vals: &[Option<&[u8]>]) -> ColumnData {
    ColumnData::Text(vals.iter().map(|o| o.map(|s| s.to_vec())).collect())
}

fn default_options() -> PlotOptions {
    PlotOptions {
        x: 1,
        y: 2,
        facet: None,
        gradient: None,
        color_hex: b"1E88E5".to_vec(),
        alpha: bits(0.3),
        logx: false,
        logy: false,
        x_min: Some(bits(0.0)),
        x_max: None,
        y_min: Some(bits(0.0)),
        y_max: None,
        point_size: 3,
        shape: PlotShape::Circle,
        si_x: false,
        si_y: false,
    }
}

fn two_column_table() -> Table {
    Table {
        height: 3,
        columns: vec![
            num_col(&[Some(1.0), Some(2.0), Some(3.0)]),
            num_col(&[Some(10.0), None, Some(30.0)]),
        ],
    }
}

#[test]
fn synthetic_series_is_the_row_index() {
    let s = synthetic_series(4);
    let expected: Vec<Option<u64>> =
        vec![Some(bits(0.0)), Some(bits(1.0)), Some(bits(2.0)), Some(bits(3.0))];
    assert_eq!(s, expected);
}

#[test]
fn x_reference_zero_is_synthetic_regardless_of_contents() {
    let t = two_column_table();
    let xs = resolve_x(&t, 0).unwrap();
    assert_eq!(xs, vec![Some(bits(0.0)), Some(bits(1.0)), Some(bits(2.0))]);
}

#[test]
fn column_resolution_errors() {
    let t = Table {
        height: 2,
        columns: vec![
            num_col(&[Some(1.0), Some(2.0)]),
            text_col(&[Some(b"a"), Some(b"b")]),
        ],
    };
    assert_eq!(
        resolve_numeric(&t, ColumnRole::YSeries, 0),
        Err(PlotError::InvalidColumnIndex(ColumnRole::YSeries, 0))
    );
    assert_eq!(
        resolve_numeric(&t, ColumnRole::YSeries, 3),
        Err(PlotError::InvalidColumnIndex(ColumnRole::YSeries, 3))
    );
    assert_eq!(
        resolve_numeric(&t, ColumnRole::YSeries, 2),
        Err(PlotError::InvalidData(DataFault::NonNumeric(ColumnRole::YSeries)))
    );
    assert_eq!(resolve_numeric(&t, ColumnRole::XSeries, 1).unwrap().len(), 2);
}

#[test]
fn primitives_cover_every_row() {
    let xs = vec![Some(bits(1.0)), Some(bits(2.0)), None, Some(bits(4.0))];
    let ys = vec![Some(bits(10.0)), None, Some(bits(3.0)), Some(bits(40.0))];
    let (prims, missing) = build_primitives(&xs, &ys, PlotShape::Circle, 3);
    assert_eq!(prims.len(), 4);
    assert_eq!(prims[0], Primitive::Dot { x: bits(1.0), y: bits(10.0), radius: 3 });
    assert_eq!(prims[1], Primitive::Dot { x: bits(0.0), y: bits(0.0), radius: 3 });
    assert_eq!(prims[2], Primitive::Dot { x: bits(0.0), y: bits(0.0), radius: 3 });
    assert_eq!(missing, vec![1, 2]);
    let (bars, missing2) = build_primitives(&xs, &ys, PlotShape::Column, 3);
    assert_eq!(bars.len(), 4);
    assert_eq!(bars[0], Primitive::Bar { x: bits(1.0), y: bits(10.0) });
    assert_eq!(bars[1], Primitive::BarCollapsed);
    assert_eq!(bars[3], Primitive::Bar { x: bits(4.0), y: bits(40.0) });
    assert_eq!(missing2, vec![1, 2]);
}

#[test]
fn solid_colors_apply_alpha() {
    let t = two_column_table();
    let plan = resolve_colors(&t, None, None, &b"1E88E5".to_vec(), bits(0.3)).unwrap();
    match plan {
        ColorPlan::Solid { rgb, alpha } => {
            assert_eq!((rgb.r, rgb.g, rgb.b), (0x1E, 0x88, 0xE5));
            assert_eq!(alpha, bits(0.3));
        },
        _ => panic!("expected a solid plan"),
    }
}

#[test]
fn bad_hex_fails_whichever_strategy() {
    let t = two_column_table();
    assert_eq!(
        resolve_colors(&t, Some(1), None, &b"12345".to_vec(), bits(0.3)),
        Err(PlotError::InvalidColorFormat)
    );
}

#[test]
fn numeric_facet_truncates_and_clamps() {
    let t = Table {
        height: 4,
        columns: vec![num_col(&[Some(0.9), Some(2.7), Some(-3.0), None])],
    };
    let plan = resolve_colors(&t, Some(1), None, &b"1E88E5".to_vec(), bits(0.3)).unwrap();
    match plan {
        ColorPlan::Facet { indices, colors } => {
            assert_eq!(indices, vec![0, 2, 0, 0]);
            for (i, c) in indices.iter().zip(colors.iter()) {
                let expected = Palette99::pick(*i as usize).rgb();
                assert_eq!((c.r, c.g, c.b), expected);
            }
            assert_eq!(colors[0], colors[2]);
            assert_eq!(colors[0], colors[3]);
        },
        _ => panic!("expected a facet plan"),
    }
}

#[test]
fn text_facet_uses_lexical_ranks() {
    let t = Table {
        height: 4,
        columns: vec![text_col(&[Some(b"pear"), Some(b"apple"), Some(b"pear"), None])],
    };
    let plan = resolve_colors(&t, Some(1), None, &b"1E88E5".to_vec(), bits(0.3)).unwrap();
    match plan {
        ColorPlan::Facet { indices, colors } => {
            assert_eq!(indices, vec![1, 0, 1, 0]);
            assert_eq!(colors[0], colors[2]);
            let expected = Palette99::pick(0).rgb();
            assert_eq!((colors[1].r, colors[1].g, colors[1].b), expected);
        },
        _ => panic!("expected a facet plan"),
    }
}

#[test]
fn facet_wins_over_gradient() {
    let t = Table {
        height: 2,
        columns: vec![num_col(&[Some(1.0), Some(2.0)]), num_col(&[Some(5.0), Some(6.0)])],
    };
    let plan = resolve_colors(&t, Some(1), Some(2), &b"1E88E5".to_vec(), bits(0.3)).unwrap();
    assert!(matches!(plan, ColorPlan::Facet { .. }));
}

#[test]
fn gradient_plan_records_span_values_and_alpha() {
    let t = Table {
        height: 4,
        columns: vec![num_col(&[Some(5.0), Some(1.0), None, Some(9.0)])],
    };
    let plan = resolve_colors(&t, None, Some(1), &b"1E88E5".to_vec(), bits(0.25)).unwrap();
    match plan {
        ColorPlan::Gradient { values, vmin, vmax, alpha } => {
            assert_eq!(values, vec![bits(5.0), bits(1.0), bits(0.0), bits(9.0)]);
            assert_eq!(vmin, bits(1.0));
            assert_eq!(vmax, bits(9.0));
            assert_eq!(alpha, bits(0.25));
        },
        _ => panic!("expected a gradient plan"),
    }
}

#[test]
fn gradient_errors() {
    let t = Table {
        height: 2,
        columns: vec![text_col(&[Some(b"a"), Some(b"b")]), num_col(&[None, None])],
    };
    assert_eq!(
        resolve_colors(&t, None, Some(1), &b"1E88E5".to_vec(), bits(0.3)),
        Err(PlotError::InvalidData(DataFault::NonNumeric(ColumnRole::GradientSeries)))
    );
    assert_eq!(
        resolve_colors(&t, None, Some(2), &b"1E88E5".to_vec(), bits(0.3)),
        Err(PlotError::InvalidData(DataFault::Empty(ColumnRole::GradientSeries)))
    );
    assert_eq!(
        resolve_colors(&t, None, Some(9), &b"1E88E5".to_vec(), bits(0.3)),
        Err(PlotError::InvalidColumnIndex(ColumnRole::GradientSeries, 9))
    );
}

#[test]
fn gradient_ramp_hits_both_endpoints_and_is_monotonic() {
    // The ramp itself is the renderer's collaborator; this exercises the
    // same two-stop yellow-to-red gradient the renderer builds from a
    // plan's span, at and between its endpoints.
    let grad = GradientBuilder::new()
        .html_colors(&["yellow", "red"])
        .domain(&[1.0, 9.0])
        .build::<LinearGradient>()
        .unwrap();
    let lo = grad.at(1.0).to_rgba8();
    let hi = grad.at(9.0).to_rgba8();
    assert_eq!((lo[0], lo[1], lo[2]), (255, 255, 0));
    assert_eq!((hi[0], hi[1], hi[2]), (255, 0, 0));
    let mut last_green = 255u8;
    for step in 0u32..=16u32 {
        let t = 1.0 + (step as f32) * 0.5;
        let c = grad.at(t).to_rgba8();
        assert!(c[1] <= last_green, "green must not rise along the ramp");
        last_green = c[1];
    }
}

#[test]
fn axis_defaults_and_explicit_bounds() {
    let t = two_column_table();
    let mut opts = default_options();
    opts.x_min = None;
    let plan = plan_plot(&t, &opts).unwrap();
    assert_eq!(
        plan.x_axis,
        AxisPlan { min: bits(0.0), max: AxisMax::AutoDecade(bits(3.0)), log: false, si_format: false }
    );
    assert_eq!(
        plan.y_axis,
        AxisPlan { min: bits(0.0), max: AxisMax::AutoDecade(bits(30.0)), log: false, si_format: false }
    );
    let mut opts2 = default_options();
    opts2.y_max = Some(bits(50.0));
    opts2.y_min = Some(bits(5.0));
    let plan2 = plan_plot(&t, &opts2).unwrap();
    assert_eq!(plan2.y_axis.min, bits(5.0));
    assert_eq!(plan2.y_axis.max, AxisMax::Explicit(bits(50.0)));
}

#[test]
fn axis_faults() {
    let t = two_column_table();
    let mut opts = default_options();
    opts.y_min = Some(bits(9.0));
    opts.y_max = Some(bits(2.0));
    assert_eq!(
        plan_plot(&t, &opts),
        Err(PlotError::InvalidData(DataFault::BoundsOutOfOrder(AxisKind::Vertical)))
    );
    let mut opts2 = default_options();
    opts2.logx = true;
    assert_eq!(
        plan_plot(&t, &opts2),
        Err(PlotError::InvalidData(DataFault::NonPositiveLogMin(AxisKind::Horizontal)))
    );
    let neg = Table {
        height: 2,
        columns: vec![num_col(&[Some(1.0), Some(2.0)]), num_col(&[Some(-5.0), Some(-1.0)])],
    };
    assert_eq!(
        plan_plot(&neg, &default_options()),
        Err(PlotError::InvalidData(DataFault::NonPositiveAutoMax(AxisKind::Vertical)))
    );
}

#[test]
fn log_axis_with_explicit_positive_min() {
    let t = two_column_table();
    let mut opts = default_options();
    opts.logy = true;
    opts.y_min = Some(bits(1.0));
    let plan = plan_plot(&t, &opts).unwrap();
    assert!(plan.y_axis.log);
    assert_eq!(plan.y_axis.min, bits(1.0));
    assert!(!plan.x_axis.log);
}

#[test]
fn degenerate_gradient_span_is_permitted() {
    let t = Table {
        height: 2,
        columns: vec![num_col(&[Some(4.0), Some(4.0)])],
    };
    let plan = resolve_colors(&t, None, Some(1), &b"1E88E5".to_vec(), bits(0.3)).unwrap();
    match plan {
        ColorPlan::Gradient { vmin, vmax, .. } => {
            assert_eq!(vmin, bits(4.0));
            assert_eq!(vmax, bits(4.0));
        },
        _ => panic!("expected a gradient plan"),
    }
    // The ramp builder refuses an empty span, which is why a renderer
    // must substitute the first stop for every row instead of building
    // the gradient.
    assert!(GradientBuilder::new()
        .html_colors(&["yellow", "red"])
        .domain(&[4.0, 4.0])
        .build::<LinearGradient>()
        .is_err());
}

#[test]
fn empty_series_fault() {
    let t = Table {
        height: 2,
        columns: vec![num_col(&[Some(1.0), Some(2.0)]), num_col(&[None, None])],
    };
    assert_eq!(
        plan_plot(&t, &default_options()),
        Err(PlotError::InvalidData(DataFault::Empty(ColumnRole::YSeries)))
    );
}

#[test]
fn delimiter_resolution() {
    assert_eq!(resolve_delimiter(&b"\\t".to_vec()), Ok(b'\t'));
    assert_eq!(resolve_delimiter(&b",".to_vec()), Ok(b','));
    assert_eq!(resolve_delimiter(&b";x".to_vec()), Ok(b';'));
    assert_eq!(
        resolve_delimiter(&b"".to_vec()),
        Err(PlotError::InvalidData(DataFault::BadDelimiter))
    );
}

#[test]
fn shape_names() {
    assert_eq!(shape_from_name(&b"column".to_vec()), PlotShape::Column);
    assert_eq!(shape_from_name(&b"circle".to_vec()), PlotShape::Circle);
    assert_eq!(shape_from_name(&b"anything".to_vec()), PlotShape::Circle);
}

#[test]
fn three_row_csv_end_to_end() {
    let input = b"x,y\n1,10\n2,\n3,30\n".to_vec();
    let t = load_table(input, b',', 0, true).unwrap();
    assert_eq!(t.height, 3);
    assert_eq!(t.columns.len(), 2);
    let plan: PlotPlan = plan_plot(&t, &default_options()).unwrap();
    assert_eq!(plan.primitives.len(), 3);
    assert_eq!(
        plan.primitives[0],
        Primitive::Dot { x: bits(1.0), y: bits(10.0), radius: 3 }
    );
    assert_eq!(
        plan.primitives[1],
        Primitive::Dot { x: bits(0.0), y: bits(0.0), radius: 3 }
    );
    assert_eq!(
        plan.primitives[2],
        Primitive::Dot { x: bits(3.0), y: bits(30.0), radius: 3 }
    );
    assert_eq!(plan.missing_rows, vec![1]);
    assert_eq!(plan.y_axis.max, AxisMax::AutoDecade(bits(30.0)));
    match plan.colors {
        ColorPlan::Solid { rgb, alpha } => {
            assert_eq!((rgb.r, rgb.g, rgb.b), (0x1E, 0x88, 0xE5));
            assert_eq!(alpha, bits(0.3));
        },
        _ => panic!("expected a solid plan"),
    }
}

#[test]
fn csv_text_column_feeds_the_facet() {
    let input = b"name\tval\npear\t1\napple\t2\npear\t3\n".to_vec();
    let t = load_table(input, b'\t', 0, true).unwrap();
    assert_eq!(t.height, 3);
    let plan = resolve_colors(&t, Some(1), None, &b"1E88E5".to_vec(), bits(0.3)).unwrap();
    match plan {
        ColorPlan::Facet { indices, .. } => assert_eq!(indices, vec![1, 0, 1]),
        _ => panic!("expected a facet plan"),
    }
}

#[test]
fn unparseable_input_is_a_parse_error() {
    let r = load_table(Vec::new(), b',', 0, true);
    assert!(matches!(r, Err(PlotError::Parse(_))));
}

#[test]
fn csv_skip_and_headerless() {
    let input = b"junk line\n5,50\n6,60\n".to_vec();
    let t = load_table(input, b',', 1, false).unwrap();
    assert_eq!(t.height, 2);
    let xs = resolve_x(&t, 1).unwrap();
    assert_eq!(xs, vec![Some(bits(5.0)), Some(bits(6.0))]);
}
