use honeypot::server::{setup, SPAWN_Y};

#[test]
fn setup_loads_a_square_of_chunks() {
    let layout = setup();
    assert_eq!(layout.chunks.len(), 100);
    assert_eq!(layout.chunks[0], (-5, -5));
    assert_eq!(layout.chunks[1], (-4, -5));
    assert_eq!(layout.chunks[10], (-5, -4));
    assert_eq!(layout.chunks[99], (4, 4));
    for z in -5..5 {
        for x in -5..5 {
            assert!(layout.chunks.contains(&(x, z)));
        }
    }
}

#[test]
fn setup_floors_the_square_with_grass() {
    let layout = setup();
    assert_eq!(layout.grass.len(), 25600);
    assert_eq!(layout.grass[0], (-80, SPAWN_Y, -80));
    assert_eq!(layout.grass[1], (-80, SPAWN_Y, -79));
    assert_eq!(layout.grass[160], (-79, SPAWN_Y, -80));
    assert_eq!(layout.grass[25599], (79, SPAWN_Y, 79));
    assert!(layout.grass.iter().all(|&(x, y, z)| y == 0 && (-80..80).contains(&x) && (-80..80).contains(&z)));
}
