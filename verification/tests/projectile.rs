use openstrike::projectile::{Owner, Projectiles, MAX_PROJECTILES};

#[test]
fn full_pool_refuses_a_shot_and_keeps_the_others() {
    let mut pool: Projectiles<(Owner, u32)> = Projectiles::new();
    assert!(pool.available());
    for i in 0..MAX_PROJECTILES as u32 {
        assert!(pool.enqueue((Owner::Bot, i)));
    }
    assert_eq!(pool.list.len(), 32);
    assert!(!pool.available());
    assert!(!pool.enqueue((Owner::Player, 99)));
    assert_eq!(pool.list.len(), 32);
    assert_eq!(pool.list[0], (Owner::Bot, 0));
    assert_eq!(pool.list[31], (Owner::Bot, 31));
    pool.list.remove(0);
    assert!(pool.enqueue((Owner::Player, 7)));
    assert_eq!(pool.list[31], (Owner::Player, 7));
    let empty: Projectiles<u8> = Projectiles::default();
    assert!(empty.list.is_empty());
}
