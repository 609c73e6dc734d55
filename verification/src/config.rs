use vstd::prelude::*;
use vstd::string::StringExecFns;
use crate::errors::AppError;

verus! {

/// The typed configuration the dashboard starts from: a validated replacement
/// for a free-form key-value map.  `api_key` is required; `default_symbol`
/// falls back to the built-in default when absent.  Unrecognized keys are
/// ignored.
pub struct AppConfig {
    pub api_key: String,
    pub default_symbol: String,
}

/// Spec-level image of [`AppConfig`].
#[verifier::ext_equal]
pub ghost struct ConfigModel {
    pub api_key: Seq<char>,
    pub default_symbol: Seq<char>,
}

impl View for AppConfig {
    type V = ConfigModel;

    open spec fn view(&self) -> ConfigModel {
        ConfigModel { api_key: self.api_key@, default_symbol: self.default_symbol@ }
    }
}

impl Clone for AppConfig {
    fn clone(&self) -> (res: Self)
        ensures
            res@ == self@,
    {
        let res = AppConfig {
            api_key: self.api_key.clone(),
            default_symbol: self.default_symbol.clone(),
        };
        assert(res@ =~= self@);
        res
    }
}

/// The value of the first pair whose key is `key`, if any.
pub open spec fn first_value(pairs: Seq<(String, String)>, key: Seq<char>) -> Option<Seq<char>>
    decreases pairs.len(),
{
    if pairs.len() == 0 {
        None
    } else if pairs[0].0@ == key {
        Some(pairs[0].1@)
    } else {
        first_value(pairs.skip(1), key)
    }
}

/// Looks a key up in the flat key-value list, first match wins.
fn lookup_value(pairs: &Vec<(String, String)>, key: &String) -> (r: Option<String>)
    ensures
        r matches Some(v) ==> first_value(pairs@, key@) == Some(v@),
        r is None ==> first_value(pairs@, key@) is None,
{
    let mut i: usize = 0;
    assert(pairs@.skip(0) =~= pairs@);
    while i < pairs.len()
        invariant
            i <= pairs@.len(),
            first_value(pairs@.skip(i as int), key@) == first_value(pairs@, key@),
        decreases pairs@.len() - i,
    {
        proof {
            assert(pairs@.skip(i as int)[0] == pairs@[i as int]);
            assert(pairs@.skip(i as int).skip(1) =~= pairs@.skip(i as int + 1));
        }
        if pairs[i].0 == *key {
            let v = pairs[i].1.clone();
            return Some(v);
        }
        i = i + 1;
    }
    assert(pairs@.skip(pairs@.len() as int) =~= Seq::<(String, String)>::empty());
    None
}

/// Builds the typed configuration from the flat key-value pairs a
/// configuration file was read into.  A missing `api_key` is fatal and is
/// reported as the configuration error; a missing `default_symbol` falls
/// back to `TSLA`.
pub fn from_pairs(pairs: &Vec<(String, String)>) -> (r: Result<AppConfig, AppError>)
    ensures
        first_value(pairs@, "api_key"@) matches Some(v) ==> (r matches Ok(c) && c@.api_key == v
            && c@.default_symbol == (match first_value(pairs@, "default_symbol"@) {
            Some(d) => d,
            None => "TSLA"@,
        })),
        first_value(pairs@, "api_key"@) is None ==> (r matches Err(e) && e == AppError::Config),
{
    let api_key_name = String::from_str("api_key");
    match lookup_value(pairs, &api_key_name) {
        Some(api_key) => {
            let default_symbol_name = String::from_str("default_symbol");
            let default_symbol = match lookup_value(pairs, &default_symbol_name) {
                Some(d) => d,
                None => String::from_str("TSLA"),
            };
            Ok(AppConfig { api_key, default_symbol })
        },
        None => Err(AppError::Config),
    }
}

} // verus!
