use bary::blob::TableIdent;
use bary::download::AsyncWorldDownload;

#[test]
fn download_starts_empty() {
    let d = AsyncWorldDownload::new(vec![1u8]);
    assert_eq!(d.steps(), 0);
    assert_eq!(d.total(), 14);
    assert_eq!(d.status(), "Requesting world from server...");
    assert!(!d.is_fail());
    assert!(!d.is_complete());
    assert_eq!(d.world(), vec![1u8]);
}

#[test]
fn download_counts_each_table_once() {
    let mut d = AsyncWorldDownload::new(());
    d.add_blob(TableIdent::Grids, true);
    assert_eq!(d.status(), "Got entity table \"Grids\"...");
    d.add_blob(TableIdent::Grids, true);
    assert_eq!(d.steps(), 1);
    d.add_blob(TableIdent::Pipes, true);
    assert_eq!(d.steps(), 2);
    assert!(!d.is_complete());
}

#[test]
fn download_completes_with_every_table() {
    let mut d = AsyncWorldDownload::new(0u32);
    for t in TableIdent::all() {
        *d.world_mut() += 1;
        d.add_blob(t, true);
    }
    assert!(d.is_complete());
    assert_eq!(d.steps(), d.total());
    assert!(!d.is_fail());
    assert_eq!(d.status(), "Got entity table \"Excavators\"...");
    assert_eq!(d.world(), 14);
}

#[test]
fn download_failure_is_kept() {
    let mut d = AsyncWorldDownload::new(());
    d.add_blob(TableIdent::Tiles, false);
    assert!(d.is_fail());
    assert_eq!(d.status(), "Failed to unpack \"Tiles\"!");
    assert_eq!(d.steps(), 0);
    d.add_blob(TableIdent::Tiles, true);
    assert!(d.is_fail());
    assert_eq!(d.steps(), 1);
}

#[test]
fn table_names_match_their_variants() {
    let names: Vec<&str> = TableIdent::all().iter().map(|t| t.name()).collect();
    assert_eq!(
        names,
        vec![
            "Blueprints", "Grids", "Protos", "Parts", "Thrusters", "Computers", "Asteroids", "Chunks",
            "Tiles", "Inventories", "Machines", "Pipes", "Lights", "Excavators"
        ]
    );
}
