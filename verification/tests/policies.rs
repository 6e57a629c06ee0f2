use rfirma::policies::{expanded_for_the_site, pairs_expanded, PolicyEngine};
use rfirma::situations::BridgeError;

struct Expands(&'static str);

impl PolicyEngine for Expands {
    fn expand(&self, _extra_params: &str, _format: &str) -> Result<String, BridgeError> {
        Ok(self.0.to_owned())
    }
}

struct Refuses;

impl PolicyEngine for Refuses {
    fn expand(&self, _extra_params: &str, _format: &str) -> Result<String, BridgeError> {
        Err(BridgeError::IncompatiblePolicy("no".to_owned()))
    }
}

#[test]
fn the_expanded_text_is_read_as_pairs_in_order() {
    let pairs = pairs_expanded(Ok("policyIdentifier=2.16\nformat=pades\n".to_owned())).expect("se lee");
    assert_eq!(
        pairs,
        vec![
            ("policyIdentifier".to_owned(), "2.16".to_owned()),
            ("format".to_owned(), "pades".to_owned()),
        ]
    );
}

#[test]
fn an_engine_error_comes_back_as_it_came() {
    let refused = pairs_expanded(Err(BridgeError::NotFound("motor".to_owned())));
    assert!(matches!(refused, Err(BridgeError::NotFound(detail)) if detail == "motor"));
}

#[test]
fn the_site_parameters_come_back_as_the_engine_expanded_them() {
    let declared = vec![("policy".to_owned(), "FirmaAGE".to_owned())];
    let expanded = expanded_for_the_site(&Expands("a=1\nb=2"), &declared).expect("se expande");
    assert_eq!(expanded, vec![("a".to_owned(), "1".to_owned()), ("b".to_owned(), "2".to_owned())]);
    assert!(matches!(
        expanded_for_the_site(&Refuses, &declared),
        Err(BridgeError::IncompatiblePolicy(_))
    ));
}
