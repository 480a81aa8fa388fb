//! Building blocks for Iced applications: the URL bar, tab management,
//! tool-flyout interaction, input routing, resize debouncing and skin
//! texture layout, frame placement, each with a verified contract.

use vstd::prelude::*;

pub mod text;
pub mod url_bar;
pub mod browser;
pub mod flyout;
pub mod resize;
pub mod input;
pub mod cursor;
pub mod webview;
pub mod native_webview;
pub mod frame;
pub mod placement;
pub mod skin;
pub mod uv;

verus! {

} // verus!
