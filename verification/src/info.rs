//! What the off-chain worker keeps in local storage.

use crate::text::{decimal_text, push_decimal};
use vstd::prelude::*;
use vstd::utf8::*;

verus! {

/// What is kept of an organization on GitHub.
#[derive(Debug, Default, PartialEq, Eq)]
pub struct GithubInfo {
    pub login: Vec<u8>,
    pub blog: Vec<u8>,
    pub public_repos: u32,
}

/// The price in US dollars, as it was fetched.
#[derive(Debug, Default, PartialEq, Eq)]
pub struct PriceInfo {
    pub price_vec: Vec<u8>,
}

impl GithubInfo {
    /// The information in readable form: the bytes shown as the text that they are. `None` where
    /// some of them are no text.
    pub fn debug_text(&self) -> (shown: Option<String>)
        ensures
            shown is Some <==> valid_utf8(self.login@) && valid_utf8(self.blog@),
            shown matches Some(text) ==> text@ == "{ login: "@ + decode_utf8(self.login@)
                + ", blog: "@ + decode_utf8(self.blog@) + ", public_repos: "@ + decimal_text(
                self.public_repos as nat,
            ) + " }"@,
    {
        let login = match core::str::from_utf8(self.login.as_slice()) {
            Ok(login) => login,
            Err(_) => return None,
        };
        let blog = match core::str::from_utf8(self.blog.as_slice()) {
            Ok(blog) => blog,
            Err(_) => return None,
        };
        proof {
            encode_utf8_decode_utf8(login@);
            encode_utf8_decode_utf8(blog@);
        }
        let mut text = String::new();
        text.append("{ login: ");
        text.append(login);
        text.append(", blog: ");
        text.append(blog);
        text.append(", public_repos: ");
        push_decimal(&mut text, self.public_repos);
        text.append(" }");
        assert(text@ =~= "{ login: "@ + decode_utf8(self.login@) + ", blog: "@ + decode_utf8(
            self.blog@,
        ) + ", public_repos: "@ + decimal_text(self.public_repos as nat) + " }"@);
        Some(text)
    }
}

impl PriceInfo {
    /// The price in readable form: the bytes shown as the text that they are. `None` where they
    /// are no text.
    pub fn debug_text(&self) -> (shown: Option<String>)
        ensures
            shown is Some <==> valid_utf8(self.price_vec@),
            shown matches Some(text) ==> text@ == "{ priceUsd: "@ + decode_utf8(self.price_vec@)
                + " }"@,
    {
        let price = match core::str::from_utf8(self.price_vec.as_slice()) {
            Ok(price) => price,
            Err(_) => return None,
        };
        proof {
            encode_utf8_decode_utf8(price@);
        }
        let mut text = String::new();
        text.append("{ priceUsd: ");
        text.append(price);
        text.append(" }");
        assert(text@ =~= "{ priceUsd: "@ + decode_utf8(self.price_vec@) + " }"@);
        Some(text)
    }
}

} // verus!
