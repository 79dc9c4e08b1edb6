use ec_su_axb35::error::EcError;
use ec_su_axb35::operation::EcOperation;
use ec_su_axb35::serializer::OperationQueue;

#[test]
fn every_submission_gets_one_reply_in_order() {
    let mut queue = OperationQueue::new();
    let ops = [
        EcOperation::GetApuTemperature,
        EcOperation::GetFanRpm(1),
        EcOperation::SetFanLevel(2, 3),
        EcOperation::GetFanMode(3),
        EcOperation::GetFirmwareVersion,
    ];
    let mut tickets = Vec::new();
    for op in ops.iter() {
        tickets.push(queue.submit(op.clone()).unwrap());
    }
    assert_eq!(tickets, vec![0, 1, 2, 3, 4]);
    let mut answered = Vec::new();
    let mut in_flight = 0;
    while let Some((ticket, op)) = queue.take_next() {
        in_flight += 1;
        assert_eq!(in_flight, 1);
        assert_eq!(format!("{:?}", op), format!("{:?}", ops[ticket as usize]));
        queue.finish(ticket);
        in_flight -= 1;
        answered.push(ticket);
    }
    assert_eq!(answered, tickets);
    assert!(queue.is_idle());
}

#[test]
fn closed_queue_refuses_new_work_but_drains_the_rest() {
    let mut queue = OperationQueue::new();
    let first = queue.submit(EcOperation::GetApuPowerMode).unwrap();
    queue.close();
    assert!(matches!(queue.submit(EcOperation::GetApuTemperature), Err(EcError::QueueUnavailable)));
    assert!(!queue.is_drained());
    let (ticket, _) = queue.take_next().unwrap();
    assert_eq!(ticket, first);
    queue.finish(ticket);
    assert!(queue.take_next().is_none());
    assert!(queue.is_drained());
    assert!(queue.has_ticket_left());
}
