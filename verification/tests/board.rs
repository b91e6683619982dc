use chessy::board::{cell_color, cell_size, checker_patches, image_dim, Rgb};

const LIGHT: Rgb = Rgb { r: 225, g: 225, b: 225 };
const DARK: Rgb = Rgb { r: 10, g: 10, b: 10 };

#[test]
fn cell_color_alternates_over_all_64_cells() {
    for x in 0..8usize {
        for y in 0..8usize {
            let expected = if (x + y) % 2 == 0 { LIGHT } else { DARK };
            assert_eq!(cell_color(x, y), expected, "cell ({}, {})", x, y);
        }
    }
}

#[test]
fn cell_size_is_an_eighth_of_the_smaller_dimension() {
    assert_eq!(cell_size(1000, 600), 75);
    assert_eq!(cell_size(600, 1000), 75);
    assert_eq!(cell_size(8, 8), 1);
    assert_eq!(cell_size(7, 100), 0);
    assert_eq!(cell_size(0, 0), 0);
}

#[test]
fn image_dim_is_eight_cells_plus_border() {
    assert_eq!(image_dim(75), 601);
    assert_eq!(image_dim(1), 9);
    assert_eq!(image_dim(0), 1);
}

#[test]
fn checker_patches_fill_each_cell_inside_its_border() {
    let g: u32 = 75;
    let v = checker_patches(g);
    assert_eq!(v.len(), 64);
    for x in 0..8u32 {
        for y in 0..8u32 {
            let p = v[(x * 8 + y) as usize];
            assert_eq!(p.x, x * g + 1);
            assert_eq!(p.y, y * g + 1);
            assert_eq!(p.w, g - 1);
            assert_eq!(p.h, g - 1);
            let expected = if (x + y) % 2 == 0 { LIGHT } else { DARK };
            assert_eq!(p.color, expected);
        }
    }
}

#[test]
fn checker_patches_corner_commands() {
    let v = checker_patches(75);
    let first = v[0];
    assert_eq!((first.x, first.y, first.w, first.h), (1, 1, 74, 74));
    assert_eq!(first.color, LIGHT);
    let second_column = v[8];
    assert_eq!((second_column.x, second_column.y), (76, 1));
    assert_eq!(second_column.color, DARK);
    let last = v[63];
    assert_eq!((last.x, last.y, last.w, last.h), (526, 526, 74, 74));
    assert_eq!(last.color, LIGHT);
}

#[test]
fn checker_patches_with_unit_cells_degenerate_to_empty_fills() {
    let v = checker_patches(1);
    assert_eq!(v.len(), 64);
    assert_eq!((v[0].x, v[0].y, v[0].w, v[0].h), (1, 1, 0, 0));
    assert_eq!((v[63].x, v[63].y), (8, 8));
}
