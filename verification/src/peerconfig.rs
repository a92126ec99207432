//! The configuration of a peer as a file to download.

use crate::command::{result_view, Error, ErrorView};
use crate::peer::has_peer;
use crate::wghelper::{PeerView, ServerView, Wg};
use vstd::prelude::*;
use vstd::string::*;

verus! {

/// A text that is handed out as a file.
#[derive(Debug, PartialEq, Eq)]
pub struct Download {
    /// How the receiver is to treat the text, with the name of the file.
    pub disposition: String,
    /// The kind of the text.
    pub content_type: String,
    pub body: String,
}

/// A `Download`, its texts as sequences of characters.
pub struct DownloadView {
    pub disposition: Seq<char>,
    pub content_type: Seq<char>,
    pub body: Seq<char>,
}

impl View for Download {
    type V = DownloadView;

    open spec fn view(&self) -> DownloadView {
        DownloadView {
            disposition: self.disposition@,
            content_type: self.content_type@,
            body: self.body@,
        }
    }
}

impl DeepView for Download {
    type V = DownloadView;

    open spec fn deep_view(&self) -> DownloadView {
        self@
    }
}

impl ServerView {
    /// The configuration of `peer` as a file: plain text, to be kept under the
    /// name of the peer.
    pub open spec fn download(self, peer: PeerView) -> DownloadView {
        DownloadView {
            disposition: "attachment; filename=\""@ + peer.name + ".conf\""@,
            content_type: "text/plain"@,
            body: self.peer_config(peer),
        }
    }
}

/// The configuration that the remote end of the peer at `peer_id` of the
/// server at `server_id` imports, as a file to download.
pub fn get_config(state: &Wg, server_id: usize, peer_id: usize) -> (result: Result<Download, Error>)
    ensures
        result_view(result) == if has_peer(state@, server_id as int, peer_id as int) {
            Ok::<DownloadView, ErrorView>(
                state@[server_id as int].download(state@[server_id as int].peers[peer_id as int]),
            )
        } else {
            Err(ErrorView::NotFound)
        },
{
    if server_id < state.servers.len() && peer_id < state.servers[server_id].peers.len() {
        let peer = &state.servers[server_id].peers[peer_id];
        let mut disposition = String::from_str("attachment; filename=\"");
        disposition.append(peer.name.as_str());
        disposition.append(".conf\"");
        Ok(
            Download {
                disposition,
                content_type: String::from_str("text/plain"),
                body: state.peer_config(server_id, peer_id),
            },
        )
    } else {
        Err(Error::NotFound)
    }
}

} // verus!
