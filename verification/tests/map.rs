use asteroids::map::{MapUpdate, SectorMap, ASTEROIDS_MAX_PER_SECTOR, STARS_PER_SECTOR};

/// Plays the map's requests on a world that only counts stars per sector.
fn apply(stars: &mut Vec<usize>, update: &MapUpdate) {
    for id in &update.hidden {
        stars[*id] = 0;
    }
    for new_sector in &update.created {
        assert_eq!(new_sector.id, stars.len());
        stars.push(0);
    }
    for id in &update.stars {
        stars[*id] += STARS_PER_SECTOR;
    }
}

fn visible(map: &SectorMap) -> usize {
    map.sectors.iter().filter(|s| s.visible).count()
}

fn at(map: &SectorMap, i: isize, j: isize) -> Option<usize> {
    map.sectors.iter().position(|s| s.i == i && s.j == j)
}

#[test]
fn count_stars() {
    let mut map = SectorMap::spawn();
    let mut stars = vec![STARS_PER_SECTOR; map.sectors.len()];
    assert_eq!(stars.iter().sum::<usize>(), 9 * STARS_PER_SECTOR);

    // The camera stays in sector (0, 0).
    let u = map.update(0, 0);
    apply(&mut stars, &u);
    assert_eq!(stars.iter().sum::<usize>(), 9 * STARS_PER_SECTOR);

    // Move camera to sector (1, 1)
    let u = map.update(1, 1);
    apply(&mut stars, &u);
    assert_eq!(stars.iter().sum::<usize>(), 9 * STARS_PER_SECTOR);

    // Move camera to sector (2, 1)
    let u = map.update(2, 1);
    apply(&mut stars, &u);
    assert_eq!(stars.iter().sum::<usize>(), 9 * STARS_PER_SECTOR);

    // Move camera back to sector (1, 1)
    let u = map.update(1, 1);
    apply(&mut stars, &u);
    assert_eq!(stars.iter().sum::<usize>(), 9 * STARS_PER_SECTOR);
}

#[test]
fn spawn_lays_out_the_block_around_the_origin() {
    let map = SectorMap::spawn();
    assert_eq!(map.sectors.len(), 9);
    let expected = [(-1, -1), (-1, 0), (-1, 1), (0, -1), (0, 0), (0, 1), (1, -1), (1, 0), (1, 1)];
    for (k, (i, j)) in expected.iter().enumerate() {
        assert_eq!((map.sectors[k].i, map.sectors[k].j), (*i, *j));
        assert!(map.sectors[k].visible);
    }
    assert_eq!(map.current.0, 4);
    // The center sees all the others; a corner sees three.
    assert_eq!(map.sectors[4].neighbours, vec![0, 1, 2, 3, 5, 6, 7, 8]);
    assert_eq!(map.sectors[0].neighbours, vec![1, 3, 4]);
    assert_eq!(map.sectors[8].neighbours, vec![4, 5, 7]);
}

#[test]
fn staying_in_the_current_sector_changes_nothing() {
    let mut map = SectorMap::spawn();
    let u = map.update(0, 0);
    assert!(u.hidden.is_empty() && u.stars.is_empty() && u.created.is_empty());
    assert_eq!(map.sectors.len(), 9);
    assert_eq!(visible(&map), 9);
}

#[test]
fn moving_right_hides_a_column_and_creates_one() {
    let mut map = SectorMap::spawn();
    let u = map.update(1, 0);
    // The left column, in neighbour order.
    assert_eq!(u.hidden, vec![0, 1, 2]);
    // At most three sectors are created along an axis: the right column.
    assert_eq!(u.created.len(), 3);
    let coords: Vec<(isize, isize)> = u.created.iter().map(|s| (s.i, s.j)).collect();
    assert_eq!(coords, vec![(2, -1), (2, 0), (2, 1)]);
    for (m, s) in u.created.iter().enumerate() {
        assert_eq!(s.id, 9 + m);
        assert_eq!(map.sectors[s.id].seed, s.seed);
        assert!(s.asteroid_healths.len() <= ASTEROIDS_MAX_PER_SECTOR);
        assert!(s.asteroid_healths.iter().all(|h| (10..=60).contains(h)));
    }
    assert_eq!(u.stars, vec![9, 10, 11]);
    // The camera's sector was known and near: it becomes the current one.
    assert_eq!(map.current.0, at(&map, 1, 0).unwrap());
    assert_eq!(visible(&map), 9);
    for s in &map.sectors {
        assert_eq!(s.visible, (s.i - 1).abs() <= 1 && s.j.abs() <= 1);
    }
    // Neighbours stay exact: (1, 0) now sees the new column.
    let k = at(&map, 1, 0).unwrap();
    assert_eq!(map.sectors[k].neighbours, vec![3, 4, 5, 6, 8, 9, 10, 11]);
    let n = at(&map, 2, 0).unwrap();
    assert_eq!(map.sectors[n].neighbours, vec![6, 7, 8, 9, 11]);
}

#[test]
fn a_diagonal_move_creates_five_sectors() {
    let mut map = SectorMap::spawn();
    let u = map.update(1, 1);
    let coords: Vec<(isize, isize)> = u.created.iter().map(|s| (s.i, s.j)).collect();
    assert_eq!(coords, vec![(0, 2), (1, 2), (2, 0), (2, 1), (2, 2)]);
    assert_eq!(u.hidden, vec![0, 1, 2, 3, 6]);
}

#[test]
fn a_jump_leaves_the_current_sector_behind() {
    let mut map = SectorMap::spawn();
    // (3, 0) is three steps away: not a neighbour of the current sector.
    let u = map.update(3, 0);
    assert_eq!(map.current.0, 4);
    assert_eq!(u.created.len(), 9);
    assert_eq!(u.hidden, vec![0, 1, 2, 3, 5, 6, 7, 8]);
    // The former current sector stays visible beside the new block.
    assert_eq!(visible(&map), 10);
    assert!(map.sectors[4].visible);
}

#[test]
fn revisited_sectors_keep_their_seed() {
    let mut map = SectorMap::spawn();
    let seeds: Vec<u64> = map.sectors.iter().map(|s| s.seed).collect();
    map.update(1, 0);
    map.update(2, 0);
    let u = map.update(1, 0);
    map.update(0, 0);
    for k in 0..9 {
        assert_eq!(map.sectors[k].seed, seeds[k]);
    }
    // Going back shows the left column again, with its stars.
    assert!(u.stars.iter().all(|id| map.sectors[*id].visible));
}

#[test]
fn find_names_the_sector_at_a_position() {
    let map = SectorMap::spawn();
    assert_eq!(map.find(0, 0), Some(4));
    assert_eq!(map.find(1, -1), Some(6));
    assert_eq!(map.find(2, 0), None);
}

#[test]
fn the_map_follows_the_camera_to_the_edges_of_isize() {
    let mut map = SectorMap::spawn();
    let (far_i, far_j) = (isize::MAX - 1, -(isize::MAX - 1));
    let u = map.update(far_i, far_j);
    assert_eq!(u.created.len(), 9);
    assert!(at(&map, isize::MAX, -isize::MAX).is_some());
    assert!(at(&map, far_i - 1, far_j + 1).is_some());
    // The new block knows its neighbours, the farthest corner included.
    let corner = at(&map, isize::MAX, -isize::MAX).unwrap();
    assert_eq!(map.sectors[corner].neighbours.len(), 3);
    // One step back along an axis creates three sectors more.
    let u = map.update(far_i, far_j + 1);
    assert_eq!(u.created.len(), 3);
}
