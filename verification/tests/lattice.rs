use id_leak::value::AbstractValue;

const VALUES: [AbstractValue; 2] = [AbstractValue::ID, AbstractValue::NonID];

#[test]
fn join_of_equal_values_is_that_value() {
    assert_eq!(AbstractValue::ID.join(&AbstractValue::ID), AbstractValue::ID);
    assert_eq!(AbstractValue::NonID.join(&AbstractValue::NonID), AbstractValue::NonID);
}

#[test]
fn join_of_different_values_is_id() {
    assert_eq!(AbstractValue::NonID.join(&AbstractValue::ID), AbstractValue::ID);
    assert_eq!(AbstractValue::ID.join(&AbstractValue::NonID), AbstractValue::ID);
}

#[test]
fn join_is_idempotent() {
    for v in VALUES {
        assert_eq!(v.join(&v), v);
    }
}

#[test]
fn join_is_commutative() {
    for a in VALUES {
        for b in VALUES {
            assert_eq!(a.join(&b), b.join(&a));
        }
    }
}

#[test]
fn join_is_associative() {
    for a in VALUES {
        for b in VALUES {
            for c in VALUES {
                assert_eq!(a.join(&b).join(&c), a.join(&b.join(&c)));
            }
        }
    }
}
