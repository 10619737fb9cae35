use kerkenez::app_core::AppCore;
use kerkenez::material::MaterialId;
use kerkenez::texture::{TextureCatalog, TextureId};

#[test]
fn material_ids_run_one_two_three() {
    let mut app: AppCore<&str, u8> = AppCore::new();
    let names = ["stone", "grass", "water", "sand", "wood"];
    for (i, name) in names.iter().enumerate() {
        let (id, forward) = app.add_material(*name);
        assert_eq!(id, MaterialId(i + 1));
        assert!(forward.is_none());
    }
    let waiting = app.resume();
    let expected: Vec<(MaterialId, &str)> =
        names.iter().enumerate().map(|(i, n)| (MaterialId(i + 1), *n)).collect();
    assert_eq!(waiting, expected);
    let (id, forward) = app.add_material("glass");
    assert_eq!(id, MaterialId(6));
    assert_eq!(forward, Some((MaterialId(6), "glass")));
    let (id, forward) = app.add_material("metal");
    assert_eq!(id, MaterialId(7));
    assert_eq!(forward, Some((MaterialId(7), "metal")));
    assert_eq!(app.next_material_id(), 8);
}

#[test]
fn texture_loads_each_file_once() {
    let mut catalog = TextureCatalog::new();
    let paths = ["a.png", "b.png", "a.png", "c.png", "b.png", "a.png"];
    let expected = [(1, true), (2, true), (1, false), (3, true), (2, false), (1, false)];
    for (path, (id, new)) in paths.iter().zip(expected.iter()) {
        assert_eq!(catalog.load_texture(path), (TextureId(*id), *new));
    }
    assert_eq!(catalog.len(), 4);
    assert_eq!(catalog.lookup("c.png"), Some(TextureId(3)));
    assert_eq!(catalog.lookup("d.png"), None);
    assert_eq!(catalog.material_texture(None), (TextureId(0), false));
    assert_eq!(catalog.material_texture(Some("b.png")), (TextureId(2), false));
    assert_eq!(catalog.len(), 4);
}
