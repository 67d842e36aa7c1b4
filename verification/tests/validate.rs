use kaws::validate::{bytes_in_order, validate_kubernetes_version};

#[test]
fn supported_versions() {
    for version in ["1.7", "1.7.0", "1.7.5", "1.8.0", "1.9", "2.0.0", "10.0"] {
        assert_eq!(validate_kubernetes_version(version), Ok(()), "{}", version);
    }
}

#[test]
fn versions_before_the_lowest() {
    for version in ["", "1", "1.", "1.6", "1.6.9", "0.9", "1.0.0", "1.10.0", "1,7"] {
        assert_eq!(
            validate_kubernetes_version(version),
            Err("This version of kaws supports only Kubernetes 1.7.0 or greater".to_string()),
            "{}",
            version
        );
    }
}

#[test]
fn a_leading_v_is_refused() {
    for version in ["v1.7.0", "v", "v2"] {
        assert_eq!(
            validate_kubernetes_version(version),
            Err("Kubernetes version should be specified without the leading 'v'".to_string())
        );
    }
}

#[test]
fn the_order_is_that_of_text() {
    let texts = ["", "1", "1.", "1.6", "1.7", "1.7.0", "1.70", "1.8", "10", "2", "a", "é"];
    for one in texts {
        for other in texts {
            assert_eq!(
                bytes_in_order(one.as_bytes(), other.as_bytes()),
                one <= other,
                "{:?} {:?}",
                one,
                other
            );
            assert_eq!(
                validate_kubernetes_version(other).is_ok(),
                !other.starts_with('v') && other >= "1.7"
            );
        }
    }
}
