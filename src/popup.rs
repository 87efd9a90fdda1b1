//! Requests from the page to open a new window: which are allowed as popup
//! windows of the application, and the unique label each popup gets.

use vstd::prelude::*;
use crate::text::{contains, contains_seq, decimal, lemma_decimal_injective, push_decimal, starts_with, starts_with_seq};

verus! {

/// Domain of the messaging site itself.
pub const MESSENGER_DOMAIN: &'static str = "messenger.com";

/// Domain of the site that hosts sign-in and calls.
pub const FACEBOOK_DOMAIN: &'static str = "facebook.com";

/// Domain of the site's content delivery network.
pub const CDN_DOMAIN: &'static str = "fbcdn.net";

/// Calls open first as a blank page.
pub const BLANK_PAGE: &'static str = "about:blank";

/// Every popup label starts with this text, followed by a decimal number.
pub const POPUP_LABEL_PREFIX: &'static str = "popup-";

/// A URL belongs to the messaging site (calls, sign-in, media) when it names
/// one of its domains anywhere, or when it is a blank page.
pub open spec fn messenger_related(url: Seq<char>) -> bool {
    ||| contains_seq(url, MESSENGER_DOMAIN@)
    ||| contains_seq(url, FACEBOOK_DOMAIN@)
    ||| contains_seq(url, CDN_DOMAIN@)
    ||| starts_with_seq(url, BLANK_PAGE@)
}

/// The label of the popup window with number `id`.
pub open spec fn popup_label_of(id: nat) -> Seq<char> {
    POPUP_LABEL_PREFIX@ + decimal(id)
}

/// Whether a window request for `url` may open inside the application.
pub fn is_messenger_related(url: &str) -> (r: bool)
    ensures
        r == messenger_related(url@),
{
    contains(url, MESSENGER_DOMAIN) || contains(url, FACEBOOK_DOMAIN) || contains(url, CDN_DOMAIN)
        || starts_with(url, BLANK_PAGE)
}

/// The label of the popup window with number `id`, such as `popup-7`.
pub fn popup_label(id: u32) -> (r: String)
    ensures
        r@ == popup_label_of(id as nat),
{
    let mut r = String::from_str(POPUP_LABEL_PREFIX);
    push_decimal(&mut r, id);
    r
}

/// Popups with different numbers have different labels.
pub proof fn lemma_popup_labels_distinct(a: nat, b: nat)
    requires
        a != b,
    ensures
        popup_label_of(a) != popup_label_of(b),
{
    if popup_label_of(a) == popup_label_of(b) {
        let n = POPUP_LABEL_PREFIX@.len() as int;
        assert(popup_label_of(a).subrange(n, popup_label_of(a).len() as int) =~= decimal(a));
        assert(popup_label_of(b).subrange(n, popup_label_of(b).len() as int) =~= decimal(b));
        lemma_decimal_injective(a, b);
    }
}

/// What to do with a request to open a new window.
#[derive(Debug, PartialEq, Eq)]
pub enum PopupDecision {
    /// Open the URL in a popup window of the application under this label.
    Open { label: String },
    /// Refuse the request.
    Deny,
}

/// Hands out popup numbers in order, starting at 0 and wrapping around
/// after `u32::MAX`.
#[derive(Debug)]
pub struct PopupLabels {
    next: u32,
}

impl View for PopupLabels {
    type V = u32;

    /// The number that the next popup gets.
    closed spec fn view(&self) -> u32 {
        self.next
    }
}

impl PopupLabels {
    /// No popup has been opened yet.
    pub fn new() -> (r: PopupLabels)
        ensures
            r@ == 0,
    {
        PopupLabels { next: 0 }
    }

    /// The number that the next popup gets.
    pub fn next_id(&self) -> (r: u32)
        ensures
            r == self@,
    {
        self.next
    }

    /// Decides a request to open `url` in a new window. A request for the
    /// messaging site opens a popup under the next label and uses up its
    /// number; any other request is denied and changes nothing.
    pub fn decide(&mut self, url: &str) -> (r: PopupDecision)
        ensures
            messenger_related(url@) ==> {
                &&& r matches PopupDecision::Open { label } && label@ == popup_label_of(old(self)@ as nat)
                &&& final(self)@ == old(self)@.wrapping_add(1)
            },
            !messenger_related(url@) ==> r == PopupDecision::Deny && final(self)@ == old(self)@,
    {
        if is_messenger_related(url) {
            let id = self.next;
            self.next = self.next.wrapping_add(1);
            PopupDecision::Open { label: popup_label(id) }
        } else {
            PopupDecision::Deny
        }
    }
}

} // verus!
