use counter_tui::{calculer_points, lancer_des, ListeChainee, MaFile, MaPile, Partie, Suite};

#[test]
fn queue_is_first_in_first_out() {
    let mut f = MaFile::new();
    assert_eq!(f.dequeue(), None);
    f.enqueue(String::from("a"));
    f.enqueue(String::from("b"));
    f.enqueue(String::from("c"));
    assert_eq!(f.len(), 3);
    assert_eq!(f.dequeue(), Some(String::from("a")));
    assert_eq!(f.dequeue(), Some(String::from("b")));
    assert_eq!(f.dequeue(), Some(String::from("c")));
    assert_eq!(f.dequeue(), None);
    assert_eq!(f.len(), 0);
}

#[test]
fn stack_is_last_in_first_out() {
    let mut p = MaPile::new();
    assert_eq!(p.pop(), None);
    p.push(String::from("a"));
    p.push(String::from("b"));
    p.push(String::from("c"));
    assert_eq!(p.len(), 3);
    assert_eq!(p.pop(), Some(String::from("c")));
    assert_eq!(p.pop(), Some(String::from("b")));
    assert_eq!(p.pop(), Some(String::from("a")));
    assert_eq!(p.pop(), None);
}

#[test]
fn linked_list_push_pop_at_head() {
    let mut l = ListeChainee::new();
    assert!(l.is_empty());
    l.push(42);
    l.push(99);
    l.push(10);
    assert!(!l.is_empty());
    assert_eq!(l.pop(), Some(10));
    assert_eq!(l.pop(), Some(99));
    assert_eq!(l.pop(), Some(42));
    assert_eq!(l.pop(), None);
    assert!(l.is_empty());
}

#[test]
fn long_linked_list() {
    let mut l = ListeChainee::new();
    for i in 0..1000u32 {
        l.push(i);
    }
    assert_eq!(l.pop(), Some(999));
}

#[test]
fn dice_points() {
    assert_eq!(calculer_points(&[4, 2, 1]), 10);
    assert_eq!(calculer_points(&[1, 1, 1]), 7);
    assert_eq!(calculer_points(&[1, 6, 1]), 6);
    assert_eq!(calculer_points(&[6, 6, 6]), 6);
    assert_eq!(calculer_points(&[5, 1, 1]), 5);
    assert_eq!(calculer_points(&[5, 5, 5]), 5);
    assert_eq!(calculer_points(&[2, 3, 4]), 1);
    assert_eq!(calculer_points(&[1, 2, 2]), 1);
}

#[test]
fn dice_rolls_stay_on_faces() {
    let mut des = [0u8; 3];
    for _ in 0..200 {
        lancer_des(&mut des);
        for d in des {
            assert!((1..=6).contains(&d));
        }
    }
}

#[test]
fn queue_state_line() {
    let mut f = MaFile::new();
    assert_eq!(f.etat(), "  [ÉTAT] Prochain à sortir -> [] <- Dernier arrivé");
    f.enqueue(String::from("a"));
    assert_eq!(f.etat(), "  [ÉTAT] Prochain à sortir -> ['a'] <- Dernier arrivé");
    f.enqueue(String::from("b c"));
    assert_eq!(f.etat(), "  [ÉTAT] Prochain à sortir -> ['a' | 'b c'] <- Dernier arrivé");
}

#[test]
fn stack_state_line() {
    let mut p = MaPile::new();
    assert_eq!(p.etat(), "  [ÉTAT] Base -> [] <- Sommet");
    p.push(String::from("x"));
    p.push(String::from("y"));
    p.push(String::from("z"));
    assert_eq!(p.etat(), "  [ÉTAT] Base -> ['x' | 'y' | 'z'] <- Sommet");
}

#[test]
fn game_keeps_best_throw_and_stops() {
    let mut g = Partie::new(3);
    assert_eq!(g.meilleure_combinaison, [0, 0, 0]);
    assert_eq!(g.noter_lancer([2, 3, 4]), Suite::Demander);
    assert_eq!((g.lancers, g.meilleur_score, g.meilleure_combinaison), (1, 1, [2, 3, 4]));
    assert_eq!(g.noter_lancer([5, 1, 1]), Suite::Demander);
    assert_eq!((g.meilleur_score, g.meilleure_combinaison), (5, [5, 1, 1]));
    assert_eq!(g.noter_lancer([3, 3, 2]), Suite::Terminee);
    assert_eq!((g.lancers, g.meilleur_score, g.meilleure_combinaison), (3, 5, [5, 1, 1]));
    let mut g = Partie::new(5);
    assert_eq!(g.noter_lancer([1, 4, 2]), Suite::Gagne);
    assert_eq!((g.lancers, g.meilleur_score), (1, 10));
}
