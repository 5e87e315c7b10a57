use freddie::bind::{
    and, exclusive, if_not_invalidated, insert_or_error, AscendState, BindError, Claim,
    DerivedLevel, HasTreePath,
};
use freddie::laserbeam::{Completed, CompletesTo, MaybeInvalidated, PathMut, Project, Stop};
use std::collections::HashSet;

struct Root {
    layer: u32,
}

struct ToLayer;

impl<'a> Project<&'a mut Root, u32> for ToLayer {
    fn project_mut<'p>(&self, parent: &'p mut &'a mut Root) -> &'p mut u32 {
        &mut parent.layer
    }

    fn project<'p>(&self, parent: &'p &'a mut Root) -> &'p u32 {
        &parent.layer
    }
}

fn path(root: &mut Root) -> PathMut<u32, &mut Root> {
    PathMut::from_fn(root, ToLayer)
}

#[test]
fn a_root_path_is_its_own_place() {
    let mut root = Root { layer: 7 };
    let place: &mut Root = HasTreePath::into_tree_path(&mut root);
    place.layer = 8;
    assert_eq!(root.layer, 8);
}

#[test]
fn a_path_mut_is_its_own_place() {
    let mut root = Root { layer: 7 };
    {
        let mut place: PathMut<u32, &mut Root> = HasTreePath::into_tree_path(path(&mut root));
        *place.get_mut() = 9;
    }
    assert_eq!(root.layer, 9);
}

#[test]
fn a_node_flattens_to_its_parent_path() {
    let mut root = Root { layer: 7 };
    {
        let node = DerivedLevel {
            parent: path(&mut root),
            data: "derived",
        };
        let mut place: PathMut<u32, &mut Root> = HasTreePath::into_tree_path(node);
        *place.get_mut() = 10;
    }
    assert_eq!(root.layer, 10);
}

#[test]
fn two_node_layers_flatten_to_the_same_place() {
    let mut root = Root { layer: 7 };
    {
        let node = DerivedLevel {
            parent: DerivedLevel {
                parent: path(&mut root),
                data: "outer",
            },
            data: 3_u8,
        };
        let mut place: PathMut<u32, &mut Root> = HasTreePath::into_tree_path(node);
        *place.get_mut() = 11;
    }
    assert_eq!(root.layer, 11);
}

#[test]
fn a_trigger_bound_twice_is_refused() {
    let mut out: HashSet<u32> = HashSet::new();
    assert_eq!(insert_or_error(&mut out, 1), Ok(()));
    assert_eq!(insert_or_error(&mut out, 2), Ok(()));
    assert_eq!(insert_or_error(&mut out, 1), Err(BindError::DuplicateTrigger));
    assert_eq!(out.len(), 2);
}

#[test]
fn a_claim_is_taken_once() {
    let mut slot: Option<()> = None;
    let mut claim = Claim::new(&mut slot);
    assert!(!claim.is_taken());
    assert_eq!(claim.try_take(), Some(()));
    assert!(claim.is_taken());
    assert_eq!(claim.try_take(), None);
    let mut again = claim.reborrow();
    assert!(again.is_taken());
    assert_eq!(again.try_take(), None);
}

fn layer_here<'a>(
    _ev: u8,
    _snap: (),
    st: AscendState<'_, PathMut<u32, &'a mut Root>>,
) -> (Vec<&'static str>, Completed<PathMut<u32, &'a mut Root>>) {
    match st.state {
        MaybeInvalidated::NotInvalidated(mut p) => {
            *p.get_mut() += 1;
            (vec!["ran"], p.complete())
        }
        MaybeInvalidated::Invalidated(c) => (vec!["invalidated"], c),
    }
}

#[test]
fn an_exclusive_handler_runs_only_for_the_first_claim() {
    let mut root = Root { layer: 0 };
    let mut slot: Option<()> = None;
    let mut claim = Claim::new(&mut slot);
    {
        let st = AscendState::new(MaybeInvalidated::NotInvalidated(path(&mut root)), claim.reborrow());
        let (effs, done) = exclusive(layer_here)(1, (), st);
        assert_eq!(effs, vec!["ran"]);
        assert!(matches!(done.into_inner(), Stop::Here(_)));
    }
    {
        let st = AscendState::new(MaybeInvalidated::NotInvalidated(path(&mut root)), claim.reborrow());
        let (effs, done) = exclusive(layer_here)(1, (), st);
        assert!(effs.is_empty());
        assert!(matches!(done.into_inner(), Stop::Here(_)));
    }
    assert!(claim.is_taken());
    assert_eq!(root.layer, 1);
}

fn bump<'a>(
    _ev: u8,
    _snap: (),
    mut p: PathMut<u32, &'a mut Root>,
) -> (Vec<&'static str>, Completed<PathMut<u32, &'a mut Root>>) {
    *p.get_mut() += 1;
    (vec!["bumped"], p.complete())
}

#[test]
fn an_invalidated_state_skips_the_handler() {
    let mut root = Root { layer: 0 };
    let mut slot: Option<()> = None;
    let claim = Claim::new(&mut slot);
    {
        let left: Completed<PathMut<u32, &mut Root>> = path(&mut root).into_parent().complete();
        let st = AscendState::new(MaybeInvalidated::Invalidated(left), claim);
        let (effs, done) = if_not_invalidated(bump)(1, (), st);
        assert!(effs.is_empty());
        let Stop::Up(r) = done.into_inner() else {
            panic!("the leave forwards");
        };
        r.layer = 5;
    }
    assert_eq!(root.layer, 5);
}

#[test]
fn and_runs_both_halves_in_order() {
    fn first<'a>(
        _ev: u8,
        _snap: (),
        st: AscendState<'_, PathMut<u32, &'a mut Root>>,
    ) -> (Vec<&'static str>, Completed<PathMut<u32, &'a mut Root>>) {
        (vec!["first"], st.complete())
    }
    fn second<'a>(
        _ev: u8,
        _snap: (),
        st: AscendState<'_, PathMut<u32, &'a mut Root>>,
    ) -> (Vec<&'static str>, Completed<PathMut<u32, &'a mut Root>>) {
        match st.state {
            MaybeInvalidated::NotInvalidated(mut p) => {
                *p.get_mut() += 10;
                (vec!["second"], p.complete())
            }
            MaybeInvalidated::Invalidated(c) => (vec!["second saw the leave"], c),
        }
    }
    fn leave<'a>(
        _ev: u8,
        _snap: (),
        st: AscendState<'_, PathMut<u32, &'a mut Root>>,
    ) -> (Vec<&'static str>, Completed<PathMut<u32, &'a mut Root>>) {
        match st.state {
            MaybeInvalidated::NotInvalidated(p) => (vec!["leave"], p.into_parent().complete()),
            MaybeInvalidated::Invalidated(c) => (vec!["leave"], c),
        }
    }
    let mut root = Root { layer: 0 };
    let mut slot: Option<()> = None;
    let mut claim = Claim::new(&mut slot);
    {
        let st = AscendState::new(MaybeInvalidated::NotInvalidated(path(&mut root)), claim.reborrow());
        let (effs, _done) = and(first, second)(1, (), st);
        assert_eq!(effs, vec!["first", "second"]);
    }
    assert_eq!(root.layer, 10);
    {
        let st = AscendState::new(MaybeInvalidated::NotInvalidated(path(&mut root)), claim.reborrow());
        let (effs, done) = and(leave, second)(1, (), st);
        assert_eq!(effs, vec!["leave", "second saw the leave"]);
        assert!(matches!(done.into_inner(), Stop::Up(_)));
    }
    assert_eq!(root.layer, 10);
    assert!(!claim.is_taken());
}

#[test]
fn a_take_through_a_reborrow_takes_the_original() {
    let mut slot = None;
    {
        let mut claim = Claim::new(&mut slot);
        {
            let mut inner = claim.reborrow();
            assert_eq!(inner.try_take(), Some(()));
        }
        assert!(claim.is_taken());
        assert_eq!(claim.try_take(), None);
    }
    assert_eq!(slot, Some(()));
}
