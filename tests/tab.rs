use regtab::{id, Id, RegPtr, Registry, RegistryBuilder, Rp};

#[derive(Clone, Debug, PartialEq)]
struct Item {
    power: u32,
}

fn leak(r: Registry<Item>) -> &'static Registry<Item> {
    Box::leak(Box::new(r))
}

#[test]
fn builder_insert_and_overwrite() {
    let mut b = RegistryBuilder::new();
    assert_eq!(b.insert(id("core/torch"), Item { power: 1 }), None);
    assert_eq!(b.insert(id("core/lamp"), Item { power: 2 }), None);
    assert_eq!(b.insert(id("core/torch"), Item { power: 3 }), Some(Item { power: 1 }));
    let r = b.build();
    assert_eq!(r.len(), 2);
    assert!(r.contains_key(&id("core/lamp")));
    assert!(!r.contains_key(&id("core/none")));
    assert_eq!(r.get(&id("core/torch")), Some(&Item { power: 3 }));
    assert_eq!(r.get(&id("core/lamp")), Some(&Item { power: 2 }));
    assert_eq!(r.get(&id("core/none")), None);
}

#[test]
fn empty_registry_holds_nothing() {
    let r: Registry<Item> = RegistryBuilder::new().build();
    assert!(r.get(&id("a/b")).is_none());
    assert_eq!(r.len(), 0);
}

#[test]
fn build_keeps_every_entry() {
    let mut b = RegistryBuilder::new();
    let names = ["a", "b", "c", "d", "e"];
    for (i, n) in names.iter().enumerate() {
        let k: Id<Item> = Id::parse(&format!("m/{n}")).unwrap();
        b.insert(k, Item { power: i as u32 });
    }
    let r = b.build();
    for (i, n) in names.iter().enumerate() {
        let k: Id<Item> = Id::parse(&format!("m/{n}")).unwrap();
        assert_eq!(r.get(&k), Some(&Item { power: i as u32 }));
    }
}

#[test]
fn reg_reports_missing_id() {
    let mut b = RegistryBuilder::new();
    b.insert(id("m/a"), Item { power: 7 });
    let r = b.build();
    assert_eq!(r.reg(id("m/a")).ok(), Some(&Item { power: 7 }));
    let e = r.reg(id("m/b")).err().unwrap();
    assert_eq!(e.missing_id().to_string(), "m/b");
    assert_eq!(e.message(), "resource not found for m/b");
}

#[test]
fn registered_pointer_round_trip() {
    let mut b = RegistryBuilder::new();
    b.insert(id("m/a"), Item { power: 5 });
    let tab = leak(b.build());
    let rp = Rp::registered(tab, id("m/a")).ok().unwrap();
    assert_eq!(rp.value(), &Item { power: 5 });
    let p = rp.to_reg_ptr();
    assert!(matches!(&p, RegPtr::Registered(i) if i.to_string() == "m/a"));
    let back = Rp::from_reg_ptr(p.clone(), tab).ok().unwrap();
    match &back {
        Rp::Registered(e) => {
            assert_eq!(e.id().to_string(), "m/a");
            assert!(std::ptr::eq(e.value(), tab.get(&id("m/a")).unwrap()));
        }
        Rp::Orphan(_) => panic!("expected a registered pointer"),
    }
    assert_eq!(*back, Item { power: 5 });

    let other = leak(RegistryBuilder::new().build());
    let e = Rp::from_reg_ptr(p, other).err().unwrap();
    assert_eq!(e.missing_id().to_string(), "m/a");
}

#[test]
fn registered_lookup_fails_when_absent() {
    let tab = leak(RegistryBuilder::new().build());
    assert!(Rp::<Item>::registered(tab, id("m/a")).is_err());
}

#[test]
fn orphan_round_trip_ignores_registry() {
    let rp = Rp::orphan(Item { power: 9 });
    assert_eq!(rp.value(), &Item { power: 9 });
    let p = rp.into_reg_ptr();
    let empty = leak(RegistryBuilder::new().build());
    let mut b = RegistryBuilder::new();
    b.insert(id("m/a"), Item { power: 1 });
    let full = leak(b.build());
    for tab in [empty, full] {
        let back = Rp::from_reg_ptr(p.clone(), tab).ok().unwrap();
        assert!(matches!(back, Rp::Orphan(_)));
        assert_eq!(*back, Item { power: 9 });
    }
}

#[test]
fn clone_keeps_variant_and_value() {
    let mut b = RegistryBuilder::new();
    b.insert(id("m/a"), Item { power: 4 });
    let tab = leak(b.build());
    let r = Rp::registered(tab, id("m/a")).ok().unwrap();
    let rc = r.clone();
    assert!(std::ptr::eq(r.value(), rc.value()));
    let o = Rp::orphan(Item { power: 8 });
    let oc = o.clone();
    assert!(matches!(oc, Rp::Orphan(_)));
    assert_eq!(*oc, Item { power: 8 });
    assert!(matches!(o.to_reg_ptr(), RegPtr::Orphan(b) if *b == Item { power: 8 }));
}
