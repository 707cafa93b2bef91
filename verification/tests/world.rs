use bary::asteroid;
use bary::components::{Components, EntitySpawner};
use bary::errors::BaryError;
use bary::grid::{Ent, IVec2};
use bary::task::{ExampleTask, TaskStatus};
use bary::terrain;

#[test]
fn spawner_hands_out_increasing_handles() {
    let mut s = EntitySpawner::default();
    assert_eq!(s.next(), Ent(0));
    assert_eq!(s.spawn(), Ent(0));
    assert_eq!(s.spawn(), Ent(1));
    assert_eq!(s.next(), Ent(2));
}

#[test]
fn component_tables() {
    let mut c: Components<&'static str> = Components::default();
    assert_eq!(c.len(), 0);
    c.spawn(Ent(5), "five");
    c.spawn(Ent(2), "two");
    c.spawn(Ent(9), "nine");
    assert_eq!(c.len(), 3);
    assert!(c.has_entity(Ent(2)));
    assert!(!c.has_entity(Ent(3)));
    assert_eq!(c.get(Ent(5)), Some(&"five"));
    assert_eq!(c.get(Ent(4)), None);
    assert_eq!(*c.require(Ent(9)), "nine");
    c.update(Ent(9), "NINE");
    assert_eq!(*c.require_mut(Ent(9)), "NINE");
    let entries = c.iter();
    assert_eq!(entries, vec![(Ent(2), &"two"), (Ent(5), &"five"), (Ent(9), &"NINE")]);
    assert_eq!(c.values(), vec![&"two", &"five", &"NINE"]);
    assert_eq!(c.try_get(Ent(4)).err(), Some(BaryError::EntityNotFound(Ent(4))));
    if let Ok(v) = c.try_get_mut(Ent(5)) {
        *v = "FIVE";
    }
    assert_eq!(c.get(Ent(5)), Some(&"FIVE"));
    assert_eq!(c.despawn(Ent(5)), Ok("FIVE"));
    assert_eq!(c.despawn(Ent(5)), Err(BaryError::EntityNotFound(Ent(5))));
    c.clear();
    assert_eq!(c.len(), 0);
}

#[test]
fn terrain_tiles() {
    for _ in 0..50 {
        let m = terrain::TerrainMaterial::random();
        let t = terrain::TerrainTile::new(Ent(3), m, false);
        assert_eq!(t.parent(), Ent(3));
        assert_eq!(t.material(), m);
        assert!(t.variant() < 8);
        assert_eq!(t.light_level(), 0);
        assert!(!t.is_visible());
    }
    assert_eq!(terrain::TerrainMaterial::from_draw(0), terrain::TerrainMaterial::Rock);
    assert_eq!(terrain::TerrainMaterial::from_draw(4), terrain::TerrainMaterial::Rock);
    assert_eq!(terrain::TerrainMaterial::from_draw(5), terrain::TerrainMaterial::Dirt);
    assert_eq!(terrain::TerrainMaterial::from_draw(8), terrain::TerrainMaterial::Iron);
}

#[test]
fn asteroid_tiles_and_lod() {
    let t = asteroid::TerrainTile::new(Ent(1), IVec2::new(-3, 4));
    assert_eq!(t.parent(), Ent(1));
    assert_eq!(t.index(), IVec2::new(-3, 4));
    let _ = t.material();
    assert_eq!(asteroid::TerrainMaterial::from_draw(5), asteroid::TerrainMaterial::Nickel);
    assert_eq!(asteroid::lod_to_length(0), 1);
    assert_eq!(asteroid::lod_to_length(3), 8);
    assert_eq!(asteroid::lod_to_length(30), 1 << 30);
}

#[test]
fn example_task_finishes() {
    let mut t = ExampleTask::new(3);
    assert_eq!(t.step(), TaskStatus::Continue("Working...".to_string()));
    assert_eq!(t.step(), TaskStatus::Continue("Working...".to_string()));
    assert_eq!(t.step(), TaskStatus::Done);
}

#[test]
fn components_change_in_place() {
    let mut c: Components<u32> = Components::default();
    let mut s = EntitySpawner::default();
    let a = s.spawn();
    let b = s.spawn();
    c.spawn(b, 20);
    c.spawn(a, 10);
    for (e, v) in c.iter_mut() {
        *v += e.0 as u32 * 100;
    }
    assert_eq!(c.get(a), Some(&10));
    assert_eq!(c.get(b), Some(&120));
    for v in c.values_mut() {
        *v += 1;
    }
    assert_eq!(c.values(), vec![&11, &121]);
    assert_eq!(c.len(), 2);
}

#[test]
fn toml_errors_convert() {
    let de = toml::from_str::<std::collections::BTreeMap<String, u32>>("a = ").unwrap_err();
    assert_eq!(BaryError::from(de.clone()), BaryError::TomlDe(de));
    let ser = toml::to_string(&1u32).unwrap_err();
    assert_eq!(BaryError::from(ser.clone()), BaryError::TomlSer(ser));
}
