//! The diorama as text, and the cubes that are built from it.
//!
//! A diorama is a stack of layers, bottom first. A layer is a list of rows of
//! text, one character for each cell of the grid: a letter that stands for a
//! material puts a cube of that material into the cell, any other character
//! leaves the cell empty. Rows beyond `GRID_SIZE_Y` and characters beyond
//! `GRID_SIZE_X` are not read.
use vstd::prelude::*;
use crate::cube::{Cube, Position};
use crate::material::{Albedo, Material, Rgb};
use crate::textures::Texture;

verus! {

/// The number of cells in a row of the grid.
pub const GRID_SIZE_X: usize = 9;

/// The number of rows in a layer of the grid.
pub const GRID_SIZE_Y: usize = 5;

/// The length of a cube's edges, in quarter world units.
pub const CUBE_SIZE: i64 = 2;

/// The distance between the centres of neighbouring cells, in quarter world
/// units.
pub const CUBE_SPACING: i64 = 2;

/// The greatest cell index, along any axis, at which a cube can be placed.
pub const MAX_GRID_INDEX: usize = 0x3fff_ffff;

/// The material that a letter stands for, or nothing for a character that
/// stands for none.
pub open spec fn material_of(letter: char) -> Option<Material> {
    if letter == 'R' {
        Some(
            Material {
                diffuse: Rgb { r: 80, g: 20, b: 20 },
                specular: 1000,
                albedo: Albedo { diffuse: 90, specular: 10, reflect: 0, refract: 0 },
                refractive_index: 0,
                texture_id: Some(Texture::Furnace),
                ..Material::black()
            },
        )
    } else if letter == 'B' {
        Some(
            Material {
                diffuse: Rgb { r: 80, g: 40, b: 20 },
                specular: 2000,
                albedo: Albedo { diffuse: 80, specular: 20, reflect: 0, refract: 0 },
                refractive_index: 0,
                texture_id: Some(Texture::Bookshelf),
                ..Material::black()
            },
        )
    } else if letter == 'I' {
        Some(
            Material {
                diffuse: Rgb { r: 40, g: 40, b: 30 },
                specular: 5000,
                albedo: Albedo { diffuse: 60, specular: 30, reflect: 10, refract: 0 },
                refractive_index: 0,
                texture_id: Some(Texture::Obsidian),
                ..Material::black()
            },
        )
    } else if letter == 'G' {
        Some(
            Material {
                diffuse: Rgb { r: 50, g: 80, b: 100 },
                specular: 12500,
                albedo: Albedo { diffuse: 0, specular: 30, reflect: 40, refract: 80 },
                refractive_index: 320,
                texture_id: Some(Texture::Glass),
                ..Material::black()
            },
        )
    } else if letter == 'Y' {
        Some(
            Material {
                diffuse: Rgb { r: 90, g: 90, b: 20 },
                specular: 3000,
                albedo: Albedo { diffuse: 70, specular: 30, reflect: 0, refract: 0 },
                refractive_index: 0,
                texture_id: Some(Texture::Glowstone),
                normal_map_id: None,
                is_emissive: true,
                emission_intensity: 60,
                emission_color: Rgb { r: 100, g: 95, b: 30 },
            },
        )
    } else if letter == 'P' {
        Some(
            Material {
                diffuse: Rgb { r: 80, g: 20, b: 80 },
                specular: 1500,
                albedo: Albedo { diffuse: 80, specular: 20, reflect: 0, refract: 0 },
                refractive_index: 0,
                texture_id: Some(Texture::Chest),
                ..Material::black()
            },
        )
    } else if letter == 'C' {
        Some(
            Material {
                diffuse: Rgb { r: 20, g: 80, b: 80 },
                specular: 2500,
                albedo: Albedo { diffuse: 70, specular: 30, reflect: 0, refract: 0 },
                refractive_index: 0,
                texture_id: Some(Texture::Chest),
                ..Material::black()
            },
        )
    } else if letter == 'W' {
        Some(
            Material {
                diffuse: Rgb { r: 90, g: 90, b: 90 },
                specular: 4000,
                albedo: Albedo { diffuse: 60, specular: 40, reflect: 0, refract: 0 },
                refractive_index: 0,
                texture_id: Some(Texture::WoodPlanks),
                ..Material::black()
            },
        )
    } else if letter == 'K' {
        Some(
            Material {
                diffuse: Rgb { r: 10, g: 10, b: 10 },
                specular: 500,
                albedo: Albedo { diffuse: 90, specular: 10, reflect: 0, refract: 0 },
                refractive_index: 0,
                texture_id: Some(Texture::Obsidian),
                ..Material::black()
            },
        )
    } else {
        None
    }
}

/// The centre of the cube in cell (`grid_x`, `grid_y`) of a layer: the grid is
/// centred on the vertical axis, its rows run along z, its layers rise along
/// y from the ground.
pub open spec fn cell_center(grid_x: int, grid_y: int, layer: int) -> (int, int, int) {
    (
        grid_x * CUBE_SPACING - (GRID_SIZE_X - 1) * CUBE_SPACING / 2,
        layer * CUBE_SPACING,
        grid_y * CUBE_SPACING - (GRID_SIZE_Y - 1) * CUBE_SPACING / 2,
    )
}

/// The cube that a character puts into a cell, if it puts one there.
pub open spec fn cube_at(letter: char, grid_x: int, grid_y: int, layer: int) -> Option<Cube> {
    match material_of(letter) {
        Some(material) => Some(
            Cube {
                center: Position {
                    x: cell_center(grid_x, grid_y, layer).0 as i64,
                    y: cell_center(grid_x, grid_y, layer).1 as i64,
                    z: cell_center(grid_x, grid_y, layer).2 as i64,
                },
                size: CUBE_SIZE,
                material,
            },
        ),
        None => None,
    }
}

/// The cubes of the first `n` characters of a row, in reading order.
pub open spec fn row_cubes(row: Seq<char>, grid_y: int, layer: int, n: int) -> Seq<Cube>
    decreases n,
{
    if n <= 0 {
        Seq::empty()
    } else {
        let before = row_cubes(row, grid_y, layer, n - 1);
        match cube_at(row[n - 1], n - 1, grid_y, layer) {
            Some(cube) => before.push(cube),
            None => before,
        }
    }
}

/// How many characters of a row are read.
pub open spec fn columns_read(row: Seq<char>) -> int {
    if row.len() <= GRID_SIZE_X {
        row.len() as int
    } else {
        GRID_SIZE_X as int
    }
}

/// How many rows of a layer are read.
pub open spec fn rows_read(rows: Seq<Seq<char>>) -> int {
    if rows.len() <= GRID_SIZE_Y {
        rows.len() as int
    } else {
        GRID_SIZE_Y as int
    }
}

/// The cubes of the first `n` rows of a layer, row by row.
pub open spec fn layer_cubes(rows: Seq<Seq<char>>, layer: int, n: int) -> Seq<Cube>
    decreases n,
{
    if n <= 0 {
        Seq::empty()
    } else {
        layer_cubes(rows, layer, n - 1) + row_cubes(
            rows[n - 1],
            n - 1,
            layer,
            columns_read(rows[n - 1]),
        )
    }
}

/// The cubes of the first `n` layers of a diorama, layer by layer.
pub open spec fn diorama_cubes(layers: Seq<Seq<Seq<char>>>, n: int) -> Seq<Cube>
    decreases n,
{
    if n <= 0 {
        Seq::empty()
    } else {
        diorama_cubes(layers, n - 1) + layer_cubes(layers[n - 1], n - 1, rows_read(layers[n - 1]))
    }
}

/// The text of a diorama: the characters of each row of each layer.
pub open spec fn text_of(layers: Seq<Vec<&str>>) -> Seq<Seq<Seq<char>>> {
    Seq::new(layers.len(), |l: int| Seq::new(layers[l]@.len(), |r: int| layers[l]@[r]@))
}

/// The diorama that the program shows: a floor of planks, and on it three
/// layers of shelves, a furnace, chests, glass and glowstone.
pub open spec fn diorama() -> Seq<Seq<Seq<char>>> {
    seq![
        seq!["WWWWWWWWW"@, "WWWWWWWWW"@, "WWWWWWWWW"@, "WWWWWWWWW"@, "WWWWWWWWW"@],
        seq!["         "@, " BBBBBBB "@, " GR IYPG "@, "         "@, "         "@],
        seq!["         "@, "  BBBBB  "@, "     Y   "@, "         "@, "         "@],
        seq!["         "@, "   BBB   "@, "         "@, "         "@, "         "@],
    ]
}

/// The text of the diorama, bottom layer first.
pub fn get_layers() -> (layers: Vec<Vec<&'static str>>)
    ensures
        text_of(layers@) == diorama(),
{
    let layer_0: Vec<&'static str> = vec![
        "WWWWWWWWW",
        "WWWWWWWWW",
        "WWWWWWWWW",
        "WWWWWWWWW",
        "WWWWWWWWW",
    ];
    let layer_1: Vec<&'static str> = vec![
        "         ",
        " BBBBBBB ",
        " GR IYPG ",
        "         ",
        "         ",
    ];
    let layer_2: Vec<&'static str> = vec![
        "         ",
        "  BBBBB  ",
        "     Y   ",
        "         ",
        "         ",
    ];
    let layer_3: Vec<&'static str> = vec![
        "         ",
        "   BBB   ",
        "         ",
        "         ",
        "         ",
    ];
    let layers: Vec<Vec<&'static str>> = vec![layer_0, layer_1, layer_2, layer_3];
    assert(text_of(layers@) =~~= diorama());
    layers
}

pub fn get_material_from_letter(letter: char) -> (material: Option<Material>)
    ensures
        material == material_of(letter),
{
    match letter {
        'R' => Some(
            Material::new(
                Rgb { r: 80, g: 20, b: 20 },
                1000,
                Albedo { diffuse: 90, specular: 10, reflect: 0, refract: 0 },
                0,
                Some(Texture::Furnace),
                None,
            ),
        ),
        'B' => Some(
            Material::new(
                Rgb { r: 80, g: 40, b: 20 },
                2000,
                Albedo { diffuse: 80, specular: 20, reflect: 0, refract: 0 },
                0,
                Some(Texture::Bookshelf),
                None,
            ),
        ),
        'I' => Some(
            Material::new(
                Rgb { r: 40, g: 40, b: 30 },
                5000,
                Albedo { diffuse: 60, specular: 30, reflect: 10, refract: 0 },
                0,
                Some(Texture::Obsidian),
                None,
            ),
        ),
        'G' => Some(
            Material::new(
                Rgb { r: 50, g: 80, b: 100 },
                12500,
                Albedo { diffuse: 0, specular: 30, reflect: 40, refract: 80 },
                320,
                Some(Texture::Glass),
                None,
            ),
        ),
        'Y' => Some(
            Material::new_emissive(
                Rgb { r: 90, g: 90, b: 20 },
                3000,
                Albedo { diffuse: 70, specular: 30, reflect: 0, refract: 0 },
                0,
                Some(Texture::Glowstone),
                None,
                60,
                Rgb { r: 100, g: 95, b: 30 },
            ),
        ),
        'P' => Some(
            Material::new(
                Rgb { r: 80, g: 20, b: 80 },
                1500,
                Albedo { diffuse: 80, specular: 20, reflect: 0, refract: 0 },
                0,
                Some(Texture::Chest),
                None,
            ),
        ),
        'C' => Some(
            Material::new(
                Rgb { r: 20, g: 80, b: 80 },
                2500,
                Albedo { diffuse: 70, specular: 30, reflect: 0, refract: 0 },
                0,
                Some(Texture::Chest),
                None,
            ),
        ),
        'W' => Some(
            Material::new(
                Rgb { r: 90, g: 90, b: 90 },
                4000,
                Albedo { diffuse: 60, specular: 40, reflect: 0, refract: 0 },
                0,
                Some(Texture::WoodPlanks),
                None,
            ),
        ),
        'K' => Some(
            Material::new(
                Rgb { r: 10, g: 10, b: 10 },
                500,
                Albedo { diffuse: 90, specular: 10, reflect: 0, refract: 0 },
                0,
                Some(Texture::Obsidian),
                None,
            ),
        ),
        _ => None,
    }
}

pub fn create_cube_from_letter(letter: char, grid_x: usize, grid_y: usize, layer: usize) -> (cube:
    Option<Cube>)
    requires
        grid_x <= MAX_GRID_INDEX,
        grid_y <= MAX_GRID_INDEX,
        layer <= MAX_GRID_INDEX,
    ensures
        cube == cube_at(letter, grid_x as int, grid_y as int, layer as int),
{
    if let Some(material) = get_material_from_letter(letter) {
        let offset_x: i64 = (GRID_SIZE_X as i64 - 1) * CUBE_SPACING / 2;
        let offset_z: i64 = (GRID_SIZE_Y as i64 - 1) * CUBE_SPACING / 2;
        let x: i64 = grid_x as i64 * CUBE_SPACING - offset_x;
        let y: i64 = layer as i64 * CUBE_SPACING;
        let z: i64 = grid_y as i64 * CUBE_SPACING - offset_z;
        Some(Cube { center: Position { x, y, z }, size: CUBE_SIZE, material })
    } else {
        None
    }
}

/// The cubes of a diorama, in reading order: layer by layer from the ground,
/// row by row, character by character.
pub fn create_cubes_from_layers(layers: &Vec<Vec<&str>>) -> (cubes: Vec<Cube>)
    requires
        layers@.len() <= MAX_GRID_INDEX + 1,
    ensures
        cubes@ == diorama_cubes(text_of(layers@), layers@.len() as int),
{
    let ghost text = text_of(layers@);
    let mut cubes: Vec<Cube> = Vec::new();
    let mut layer_idx: usize = 0;
    while layer_idx < layers.len()
        invariant
            layer_idx <= layers.len(),
            layers@.len() <= MAX_GRID_INDEX + 1,
            text == text_of(layers@),
            cubes@ == diorama_cubes(text, layer_idx as int),
        decreases layers.len() - layer_idx,
    {
        let layer: &Vec<&str> = &layers[layer_idx];
        let ghost rows = text[layer_idx as int];
        let ghost below = cubes@;
        assert(rows.len() == layer@.len());
        let mut y: usize = 0;
        while y < layer.len() && y < GRID_SIZE_Y
            invariant
                y <= layer.len(),
                y <= GRID_SIZE_Y,
                layer_idx < layers.len(),
                layers@.len() <= MAX_GRID_INDEX + 1,
                rows.len() == layer@.len(),
                forall|r: int| 0 <= r < rows.len() ==> rows[r] == layer@[r]@,
                cubes@ == below + layer_cubes(rows, layer_idx as int, y as int),
            decreases layer.len() - y,
        {
            let line: &str = layer[y];
            let len: usize = line.unicode_len();
            let ghost row = rows[y as int];
            let ghost behind = cubes@;
            let mut x: usize = 0;
            while x < len && x < GRID_SIZE_X
                invariant
                    x <= len,
                    x <= GRID_SIZE_X,
                    y < GRID_SIZE_Y,
                    layer_idx < layers.len(),
                    layers@.len() <= MAX_GRID_INDEX + 1,
                    len == line@.len(),
                    row == line@,
                    cubes@ == behind + row_cubes(row, y as int, layer_idx as int, x as int),
                decreases len - x,
            {
                let ch: char = line.get_char(x);
                if let Some(cube) = create_cube_from_letter(ch, x, y, layer_idx) {
                    cubes.push(cube);
                }
                x = x + 1;
                assert(cubes@ =~= behind + row_cubes(row, y as int, layer_idx as int, x as int));
            }
            assert(x == columns_read(row));
            y = y + 1;
            assert(cubes@ =~= below + layer_cubes(rows, layer_idx as int, y as int));
        }
        assert(y == rows_read(rows));
        layer_idx = layer_idx + 1;
        assert(cubes@ =~= diorama_cubes(text, layer_idx as int));
    }
    cubes
}

} // verus!
