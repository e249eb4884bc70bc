use headlight::commands::HeadlightCommand;
use headlight::reader::HeadlightCommandReader;
use headlight::tuning::{
    BrightnessCommand, MonitorCommand, PIDCommand, PWMCommand, ReceiveBundle, RequestCommand,
    SendBundle, StatusCommand,
};
use headlight::writer::HeadlightCommandWriter;

#[test]
fn identifiers_of_the_direct_commands() {
    assert_eq!(<RequestCommand as HeadlightCommand>::ID, 0x10);
    assert_eq!(<StatusCommand as HeadlightCommand>::ID, 0x1f);
    assert_eq!(<BrightnessCommand as HeadlightCommand>::ID, 0xaa);
    assert_eq!(<MonitorCommand as HeadlightCommand>::ID, 0xab);
    assert_eq!(<PIDCommand as HeadlightCommand>::ID, 0xac);
    assert_eq!(<PWMCommand as HeadlightCommand>::ID, 0xad);
}

#[test]
fn payloads_of_the_direct_commands() {
    assert_eq!(RequestCommand::Noop.serialize(), vec![0x00]);
    assert_eq!(RequestCommand::Status.serialize(), vec![0x1f]);
    assert_eq!(RequestCommand::Brightness.serialize(), vec![0xaa]);
    assert_eq!(RequestCommand::Monitor.serialize(), vec![0xab]);
    assert_eq!(RequestCommand::PID.serialize(), vec![0xac]);
    assert_eq!(RequestCommand::deserialize(&[0xac]), Some(RequestCommand::PID));
    assert_eq!(RequestCommand::deserialize(&[0xad]), None);
    assert_eq!(StatusCommand { state: 1, error: 2 }.serialize(), vec![1, 2]);
    assert_eq!(StatusCommand::deserialize(&[1, 2]), Some(StatusCommand { state: 1, error: 2 }));
    assert_eq!(StatusCommand::deserialize(&[1]), None);
    assert_eq!(BrightnessCommand { brightness: 200 }.serialize(), vec![200]);
    assert_eq!(BrightnessCommand::deserialize(&[200]), Some(BrightnessCommand { brightness: 200 }));
    assert_eq!(BrightnessCommand::deserialize(&[]), None);
    let monitor = MonitorCommand { duty: 9, current: 8, temperature: 7 };
    assert_eq!(monitor.serialize(), vec![9, 8, 7]);
    assert_eq!(MonitorCommand::deserialize(&[9, 8, 7]), Some(monitor));
    assert_eq!(MonitorCommand::deserialize(&[9, 8]), None);
    let pid = PIDCommand { k_p: 1, k_i: 2, k_d: 3 };
    assert_eq!(pid.serialize(), vec![1, 2, 3]);
    assert_eq!(PIDCommand::deserialize(&[1, 2, 3]), Some(pid));
    assert_eq!(PIDCommand::deserialize(&[1, 2, 3, 4]), None);
    assert_eq!(PWMCommand { freq: 300 }.serialize(), vec![0x2c, 0x01]);
    assert_eq!(PWMCommand::deserialize(&[0x2c, 0x01]), Some(PWMCommand { freq: 300 }));
    assert_eq!(PWMCommand::deserialize(&[0x2c]), None);
}

#[test]
fn frames_of_the_direct_commands() {
    let writer = HeadlightCommandWriter::new(());
    assert_eq!(
        writer.encode(&SendBundle::BrightnessCommand(BrightnessCommand { brightness: 200 })),
        vec![0xaa, 0x20, 200]
    );
    assert_eq!(
        writer.encode(&SendBundle::PIDCommand(PIDCommand { k_p: 1, k_i: 2, k_d: 3 })),
        vec![0xac, 0x0c, 1, 2, 3]
    );
    assert_eq!(
        writer.encode(&SendBundle::RequestCommand(RequestCommand::Noop)),
        vec![0x10, 0x62, 0]
    );
}

#[test]
fn the_bridge_recognizes_what_the_lamp_sends() {
    let mut reader = HeadlightCommandReader::new(());
    let mut stream = vec![0x00];
    stream.extend_from_slice(&[0x1f, 0x9b, 1, 2]);
    stream.extend_from_slice(&[0xab, 0xc2, 9, 8, 7]);
    // A request is nothing that the lamp sends.
    stream.extend_from_slice(&[0x10, 0x62, 0]);
    stream.extend_from_slice(&[0xaa, 0x20, 200]);
    assert!(reader.poll(&stream));
    let first: Option<ReceiveBundle> = reader.recognizes();
    let second: Option<ReceiveBundle> = reader.recognizes();
    let third: Option<ReceiveBundle> = reader.recognizes();
    let fourth: Option<ReceiveBundle> = reader.recognizes();
    assert_eq!(first, Some(ReceiveBundle::StatusCommand(StatusCommand { state: 1, error: 2 })));
    assert_eq!(
        second,
        Some(ReceiveBundle::MonitorCommand(MonitorCommand { duty: 9, current: 8, temperature: 7 }))
    );
    assert_eq!(
        third,
        Some(ReceiveBundle::BrightnessCommand(BrightnessCommand { brightness: 200 }))
    );
    assert_eq!(fourth, None);
    assert_eq!(reader.buf.len(), 0);
}

#[test]
fn the_lamp_recognizes_what_the_bridge_sends() {
    let writer = HeadlightCommandWriter::new(());
    let all = [
        SendBundle::RequestCommand(RequestCommand::Monitor),
        SendBundle::BrightnessCommand(BrightnessCommand { brightness: 0 }),
        SendBundle::PIDCommand(PIDCommand { k_p: 255, k_i: 0, k_d: 7 }),
    ];
    for command in all {
        let mut reader = HeadlightCommandReader::new(());
        assert!(reader.poll(&writer.encode(&command)));
        let found: Option<SendBundle> = reader.recognizes();
        assert_eq!(found, Some(command));
    }
}
