use keyforge_model::error::ForgeError;
use keyforge_model::mapping::{BulkProjection, Projection};

#[derive(Debug, PartialEq)]
struct Half(u32);

impl Projection<u32> for Half {
    fn project(source: u32) -> Result<Self, ForgeError> {
        if source % 2 == 0 {
            Ok(Half(source / 2))
        } else {
            Err(ForgeError::Projection(format!("odd {source}")))
        }
    }
}

#[test]
fn project_all_keeps_order() {
    let r = Half::project_all(vec![8, 2, 6, 0]);
    assert_eq!(r.unwrap(), vec![Half(4), Half(1), Half(3), Half(0)]);
}

#[test]
fn project_all_empty_is_ok() {
    let r = Half::project_all(Vec::new());
    assert_eq!(r.unwrap(), Vec::<Half>::new());
}

#[test]
fn project_all_reports_first_failure() {
    let r = Half::project_all(vec![2, 3, 4, 5]);
    assert!(matches!(r, Err(ForgeError::Projection(ref m)) if m == "odd 3"));
}
