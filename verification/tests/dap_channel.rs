use hyperlight_core::dap::comm::ChannelTryRecvError;
use hyperlight_core::dap::{DapCommChannel, DapRequest, DapResponse};

#[test]
fn test_channel_send_recv() {
    let (server_chan, vm_chan) = DapCommChannel::<DapRequest, DapResponse>::unbounded();

    // Send from server to VM
    let result = server_chan.send(DapRequest::Continue);
    assert!(result.is_ok());

    // Receive on VM side
    let result = vm_chan.recv();
    assert!(result.is_ok());
    assert!(matches!(result.unwrap(), DapRequest::Continue));

    // Send response from VM to server
    let result = vm_chan.send(DapResponse::Continued);
    assert!(result.is_ok());

    // Receive on server side
    let result = server_chan.recv();
    assert!(result.is_ok());
    assert!(matches!(result.unwrap(), DapResponse::Continued));
}

#[test]
fn test_try_recv_empty() {
    let (server_chan, _vm_chan) = DapCommChannel::<DapRequest, DapResponse>::unbounded();

    // Should return Empty when no messages
    let result = server_chan.try_recv();
    assert!(matches!(result, Err(ChannelTryRecvError::Empty)));
}

#[test]
fn test_try_recv_disconnected() {
    let (server_chan, vm_chan) = DapCommChannel::<DapRequest, DapResponse>::unbounded();

    // Drop the VM channel
    drop(vm_chan);

    // Should return Disconnected
    let result = server_chan.try_recv();
    assert!(matches!(result, Err(ChannelTryRecvError::Disconnected)));
}

#[test]
fn test_channel_len_and_empty() {
    let (server_chan, vm_chan) = DapCommChannel::<DapRequest, DapResponse>::unbounded();

    assert!(vm_chan.is_empty());
    assert_eq!(vm_chan.len(), 0);

    server_chan.send(DapRequest::Continue).unwrap();
    server_chan.send(DapRequest::Pause).unwrap();

    assert!(!vm_chan.is_empty());
    assert_eq!(vm_chan.len(), 2);
}
