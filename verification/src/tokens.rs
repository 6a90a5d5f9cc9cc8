//! Signing in: what the host makes of the redirect that brings the
//! authorization code, and what it sends to get the tokens for it.

use crate::settings::TwitchSettings;
use vstd::prelude::*;

verus! {

/// The authorization code among the parameters of a redirect's query: the
/// value of the parameter called `code`, of the last one where there are
/// several.
pub open spec fn code_in(query: Seq<(Seq<char>, Seq<char>)>) -> Option<Seq<char>>
    decreases query.len(),
{
    if query.len() == 0 {
        None
    } else if query.last().0 == "code"@ {
        Some(query.last().1)
    } else {
        code_in(query.drop_last())
    }
}

/// The texts of a list of named parameters.
pub open spec fn parameters_of(pairs: Seq<(String, String)>) -> Seq<(Seq<char>, Seq<char>)> {
    Seq::new(pairs.len(), |i: int| (pairs[i].0@, pairs[i].1@))
}

/// The form that asks the token endpoint for the tokens that belong to
/// `code`.
pub open spec fn token_form(settings: TwitchSettings, code: Seq<char>) -> Seq<
    (Seq<char>, Seq<char>),
> {
    seq![
        ("client_id"@, settings.client_id@),
        ("client_secret"@, settings.client_secret@),
        ("code"@, code),
        ("grant_type"@, "authorization_code"@),
        ("redirect_uri"@, settings.redirect_uri@),
    ]
}

/// The authorization code that a redirect brought, if it brought one.
pub fn authorization_code(query: &Vec<(String, String)>) -> (code: Option<String>)
    ensures
        code is Some <==> code_in(parameters_of(query@)) is Some,
        code is Some ==> Some(code->0@) == code_in(parameters_of(query@)),
{
    let wanted = String::from_str("code");
    let mut n: usize = query.len();
    assert(parameters_of(query@).take(n as int) =~= parameters_of(query@));
    while n > 0
        invariant
            n <= query@.len(),
            wanted@ == "code"@,
            code_in(parameters_of(query@)) == code_in(parameters_of(query@).take(n as int)),
        decreases n,
    {
        let ghost front = parameters_of(query@).take(n as int);
        proof {
            assert(front.last() == (query@[n - 1].0@, query@[n - 1].1@));
            assert(front.drop_last() =~= parameters_of(query@).take(n - 1));
        }
        if query[n - 1].0 == wanted {
            return Some(query[n - 1].1.clone());
        }
        n = n - 1;
    }
    proof {
        assert(parameters_of(query@).take(0).len() == 0);
    }
    None
}

/// The form to send to the token endpoint for the authorization code `code`.
pub fn token_request(settings: &TwitchSettings, code: &str) -> (form: Vec<(String, String)>)
    ensures
        parameters_of(form@) == token_form(*settings, code@),
{
    let mut form: Vec<(String, String)> = Vec::new();
    form.push((String::from_str("client_id"), settings.client_id.clone()));
    form.push((String::from_str("client_secret"), settings.client_secret.clone()));
    form.push((String::from_str("code"), String::from_str(code)));
    form.push((String::from_str("grant_type"), String::from_str("authorization_code")));
    form.push((String::from_str("redirect_uri"), settings.redirect_uri.clone()));
    assert(parameters_of(form@) =~= token_form(*settings, code@));
    form
}

} // verus!
